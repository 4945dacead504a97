//! Who owns the running copy of the app: evidence-backed installation
//! sources, never inferred from a download history.
use vstd::prelude::*;

verus! {

/// Evidence-backed ownership of the currently running copy.
#[derive(Debug, Clone, Copy, PartialEq, Eq, Structural)]
pub enum InstallationSource {
    /// A Homebrew receipt and Caskroom back-link identify this app bundle.
    Homebrew(HomebrewCask),
    /// The package database owns this executable.
    LinuxPackage(LinuxPackage),
    /// The resolved executable lives in the Nix store.
    Nix,
    /// The per-user MSI registration points to this executable.
    WindowsMsi,
    /// This copy carries the portable archive's distribution marker.
    WindowsPortable,
    /// A macOS bundle without matching Homebrew ownership; origin unknown.
    MacAppBundle,
    /// No supported ownership evidence, unavailable metadata, or
    /// conflicting receipts.
    Unknown,
}

/// The two supported Homebrew cask tokens, independent of their version.
#[derive(Debug, Clone, Copy, PartialEq, Eq, Structural)]
pub enum HomebrewCask {
    /// `openlogi`, from the official cask repository.
    Official,
    /// `openlogi@latest`, from the project's own tap.
    Latest,
}

/// The Linux package database that owns the running executable.
#[derive(Debug, Clone, Copy, PartialEq, Eq, Structural)]
pub enum LinuxPackage {
    /// Registered with dpkg.
    Deb,
    /// Registered with rpm.
    Rpm,
    /// Registered with pacman.
    Arch,
}

/// Startup detection state; pending is distinct from an inconclusive result.
#[derive(Debug, Clone, Copy, PartialEq, Eq, Structural)]
pub enum Installation {
    /// The one-time background probe has not completed yet.
    Detecting,
    /// The probe completed, possibly without conclusive evidence.
    Detected(InstallationSource),
}

/// What the Homebrew casks found to own the running app bundle say, in the
/// order they were found: none leaves an unexplained app bundle, one cask
/// (however often it is found) owns it, and two different casks conflict.
pub open spec fn homebrew_source_spec(owned: Seq<HomebrewCask>) -> InstallationSource {
    if owned.len() == 0 {
        InstallationSource::MacAppBundle
    } else if forall|i: int| 0 <= i < owned.len() ==> #[trigger] owned[i] == owned[0] {
        InstallationSource::Homebrew(owned[0])
    } else {
        InstallationSource::Unknown
    }
}

/// The installation source of an app bundle owned by the casks `owned`.
pub fn homebrew_source(owned: &[HomebrewCask]) -> (r: InstallationSource)
    ensures
        r == homebrew_source_spec(owned@),
{
    if owned.len() == 0 {
        return InstallationSource::MacAppBundle;
    }
    let first = owned[0];
    let mut i: usize = 1;
    while i < owned.len()
        invariant
            1 <= i <= owned@.len(),
            first == owned@[0],
            forall|j: int| 0 <= j < i ==> owned@[j] == first,
        decreases owned.len() - i,
    {
        if owned[i] != first {
            return InstallationSource::Unknown;
        }
        i += 1;
    }
    InstallationSource::Homebrew(first)
}

} // verus!
