use storyteller::file_id::{ext_category, extension, suggestion, FileTypeSuggestion};

fn chars(s: &str) -> Vec<char> {
    s.chars().collect()
}

#[test]
fn directory_wins_over_any_name() {
    assert_eq!(
        suggestion(false, &chars("run.exe")),
        FileTypeSuggestion::Directory
    );
    assert_eq!(suggestion(false, &chars("")), FileTypeSuggestion::Directory);
}

#[test]
fn executable_extensions() {
    for name in [
        "a.exe", "a.bat", "a.cmd", "a.com", "a.sh", "a.ps1", "a.vbs", "a.wsf", "a.js", "a.jse",
        "a.vbe", "a.wsh", "a.hta", "a.cpl", "a.scr", "a.pif", "a.lnk",
    ] {
        assert_eq!(
            suggestion(true, &chars(name)),
            FileTypeSuggestion::Executable,
            "{name}"
        );
    }
}

#[test]
fn text_extension() {
    assert_eq!(
        suggestion(true, &chars("notes.txt")),
        FileTypeSuggestion::Text
    );
}

#[test]
fn readable_extensions() {
    for name in [
        "c.json", "c.toml", "c.yaml", "c.json5", "c.jsonc", "c.yml", "c.yamlc", "c.ymlc",
    ] {
        assert_eq!(
            suggestion(true, &chars(name)),
            FileTypeSuggestion::Readable,
            "{name}"
        );
    }
}

#[test]
fn markdown_entry_keeps_its_dot_and_never_matches() {
    // The table lists ".md", not "md"; an extension never carries a dot,
    // so markdown files fall through to Unknown.
    assert_eq!(
        suggestion(true, &chars("README.md")),
        FileTypeSuggestion::Unknown
    );
}

#[test]
fn unknown_cases() {
    assert_eq!(suggestion(true, &chars("noext")), FileTypeSuggestion::Unknown);
    assert_eq!(
        suggestion(true, &chars(".bashrc")),
        FileTypeSuggestion::Unknown
    );
    assert_eq!(
        suggestion(true, &chars("trailing.")),
        FileTypeSuggestion::Unknown
    );
    assert_eq!(
        suggestion(true, &chars("photo.png")),
        FileTypeSuggestion::Unknown
    );
    assert_eq!(suggestion(true, &chars("")), FileTypeSuggestion::Unknown);
}

#[test]
fn classification_is_case_sensitive() {
    assert_eq!(
        suggestion(true, &chars("RUN.EXE")),
        FileTypeSuggestion::Unknown
    );
}

#[test]
fn only_the_last_dot_counts() {
    assert_eq!(
        suggestion(true, &chars("archive.tar.gz")),
        FileTypeSuggestion::Unknown
    );
    assert_eq!(
        suggestion(true, &chars("archive.gz.sh")),
        FileTypeSuggestion::Executable
    );
}

#[test]
fn extension_is_split_after_the_last_dot() {
    assert_eq!(extension(&chars("a.tar.gz")), Some(chars("gz")));
    assert_eq!(extension(&chars("trailing.")), Some(vec![]));
    assert_eq!(extension(&chars("..ext")), Some(chars("ext")));
    assert_eq!(extension(&chars("noext")), None);
    assert_eq!(extension(&chars(".bashrc")), None);
    assert_eq!(extension(&chars("")), None);
    assert_eq!(extension(&chars(".")), None);
}

#[test]
fn category_table_lookup() {
    assert_eq!(ext_category(&chars("exe")), FileTypeSuggestion::Executable);
    assert_eq!(ext_category(&chars("txt")), FileTypeSuggestion::Text);
    assert_eq!(ext_category(&chars("json")), FileTypeSuggestion::Readable);
    assert_eq!(ext_category(&chars("md")), FileTypeSuggestion::Unknown);
    assert_eq!(ext_category(&chars("")), FileTypeSuggestion::Unknown);
}

#[test]
fn default_category_is_unknown() {
    assert_eq!(FileTypeSuggestion::default(), FileTypeSuggestion::Unknown);
}
