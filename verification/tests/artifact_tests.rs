use script_analyzer::artifact::{
    alphanumeric, analysis_command, check_stem, ArtifactName, STEM_LENGTH,
};

#[test]
fn generated_name_is_twenty_letters_and_digits_and_the_suffix() {
    for _ in 0..200 {
        let name = ArtifactName::generate();
        let text = name.as_str();
        assert_eq!(text.chars().count(), STEM_LENGTH + 4);
        assert!(text.ends_with(".ps1"));
        let stem = &text[..STEM_LENGTH];
        assert!(stem.chars().all(|c| c.is_ascii_alphanumeric()));
        assert!(check_stem(stem));
    }
}

#[test]
fn generated_names_differ() {
    let a = ArtifactName::generate();
    let b = ArtifactName::generate();
    assert_ne!(a.as_str(), b.as_str());
}

#[test]
fn stem_length_is_twenty() {
    assert_eq!(STEM_LENGTH, 20);
}

#[test]
fn name_from_stem_appends_the_suffix() {
    let name = ArtifactName::from_stem("abcdefghij0123456789").unwrap();
    assert_eq!(name.as_str(), "abcdefghij0123456789.ps1");
    let name = ArtifactName::from_stem("AZaz09AZaz09AZaz09AZ").unwrap();
    assert_eq!(name.as_str(), "AZaz09AZaz09AZaz09AZ.ps1");
}

#[test]
fn name_from_bad_stem_is_refused() {
    assert!(ArtifactName::from_stem("").is_none());
    assert!(ArtifactName::from_stem("abcdefghij012345678").is_none());
    assert!(ArtifactName::from_stem("abcdefghij01234567890").is_none());
    assert!(ArtifactName::from_stem("abcdefghij012345678;").is_none());
    assert!(ArtifactName::from_stem("abcdefghij 123456789").is_none());
    assert!(ArtifactName::from_stem("abcdefghij.123456789").is_none());
    assert!(ArtifactName::from_stem("../../etc/passwd0000").is_none());
    assert!(ArtifactName::from_stem("abcdefghij01234567\u{e9}9").is_none());
    assert!(ArtifactName::from_stem("$(rm -rf /);aaaaaaaa").is_none());
}

#[test]
fn check_stem_answers_letters_and_digits_of_the_right_length() {
    assert!(check_stem("00000000000000000000"));
    assert!(check_stem("zzzzzzzzzzZZZZZZZZZZ"));
    assert!(!check_stem("0000000000000000000"));
    assert!(!check_stem("0000000000000000000_"));
    assert!(!check_stem("\u{e9}0000000000000000000"));
}

#[test]
fn alphanumeric_is_ascii_letters_and_digits() {
    for c in ['0', '9', 'A', 'Z', 'a', 'z', 'm', '5'] {
        assert!(alphanumeric(c));
    }
    for c in ['/', ':', '@', '[', '`', '{', '.', ' ', ';', '\u{e9}', '\u{660}'] {
        assert!(!alphanumeric(c));
    }
}

#[test]
fn command_names_the_artifact() {
    let name = ArtifactName::from_stem("abcdefghij0123456789").unwrap();
    assert_eq!(
        analysis_command(&name),
        "$a=Invoke-ScriptAnalyzer abcdefghij0123456789.ps1;foreach($b in $a){$b.RuleName+\"`t\"+$b.Severity+\"`t\"+$b.Line+\"`t\"+$b.Message}"
    );
}
