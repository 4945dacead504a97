use openlogi::installation::{homebrew_source, HomebrewCask, InstallationSource};

#[test]
fn homebrew_ownership_decides_the_source() {
    assert_eq!(homebrew_source(&[]), InstallationSource::MacAppBundle);
    assert_eq!(
        homebrew_source(&[HomebrewCask::Official]),
        InstallationSource::Homebrew(HomebrewCask::Official)
    );
    // The same cask found under two prefixes still owns the bundle.
    assert_eq!(
        homebrew_source(&[HomebrewCask::Latest, HomebrewCask::Latest]),
        InstallationSource::Homebrew(HomebrewCask::Latest)
    );
    // Conflicting receipts are no evidence.
    assert_eq!(
        homebrew_source(&[HomebrewCask::Official, HomebrewCask::Latest]),
        InstallationSource::Unknown
    );
}
