use lomba_core::preview::{
    ends_in_zip, extension_is_text, is_zip_name, listed_as_text, shows_content, ArchiveContent,
    ArchiveEntry, FilePreview, PREVIEW_SIZE_LIMIT,
};

#[test]
fn listed_extensions_are_text() {
    let listed = [
        "txt", "html", "css", "js", "ts", "tsx", "jsx", "json", "xml", "md", "py", "rs", "c", "cpp",
        "h", "java", "php", "sql", "sh", "bat", "yml", "yaml", "toml", "ini", "cfg", "log",
    ];
    for extension in listed {
        assert!(extension_is_text(extension), "{}", extension);
    }
}

#[test]
fn extensions_are_compared_in_lower_case() {
    assert!(extension_is_text("RS"));
    assert!(extension_is_text("Json"));
    assert!(extension_is_text("TOML"));
}

#[test]
fn other_extensions_are_not_text() {
    for extension in ["", "zip", "pdf", "exe", "tx", "txtx", "rs ", ".rs", "png", "docx"] {
        assert!(!extension_is_text(extension), "{}", extension);
    }
}

#[test]
fn content_is_shown_of_small_text_only() {
    assert_eq!(PREVIEW_SIZE_LIMIT, 1_000_000);
    assert!(shows_content(true, 0));
    assert!(shows_content(true, 999_999));
    assert!(!shows_content(true, 1_000_000));
    assert!(!shows_content(true, u64::MAX));
    assert!(!shows_content(false, 0));
    assert!(!shows_content(false, 999_999));
}

#[test]
fn zip_names_end_in_zip_in_any_case() {
    assert!(is_zip_name("jawaban.zip"));
    assert!(is_zip_name("JAWABAN.ZIP"));
    assert!(is_zip_name("a.b.Zip"));
    assert!(is_zip_name(".zip"));
    assert!(is_zip_name("t\u{00e9}l\u{00e9}.zip"));
}

#[test]
fn other_names_are_no_zip_names() {
    assert!(!is_zip_name(""));
    assert!(!is_zip_name("zip"));
    assert!(!is_zip_name("jawaban.zip.txt"));
    assert!(!is_zip_name("jawaban.zipx"));
    assert!(!is_zip_name("jawaban.rar"));
    assert!(!is_zip_name("jawaban_zip"));
}

#[test]
fn preview_of_small_text_shows_what_was_read() {
    let preview =
        FilePreview::assemble("main.rs".to_string(), "rs", 120, Some("fn main() {}".to_string()));
    assert_eq!(
        preview,
        FilePreview {
            filename: "main.rs".to_string(),
            content: Some("fn main() {}".to_string()),
            is_text: true,
            size: 120,
        }
    );
}

#[test]
fn preview_of_text_that_could_not_be_read_shows_nothing() {
    let preview = FilePreview::assemble("main.rs".to_string(), "RS", 120, None);
    assert!(preview.is_text);
    assert_eq!(preview.content, None);
}

#[test]
fn preview_of_large_text_or_of_other_files_shows_nothing() {
    let large =
        FilePreview::assemble("big.log".to_string(), "log", 1_000_000, Some("x".to_string()));
    assert!(large.is_text);
    assert_eq!(large.content, None);
    assert_eq!(large.size, 1_000_000);
    let binary = FilePreview::assemble("a.zip".to_string(), "zip", 10, Some("x".to_string()));
    assert!(!binary.is_text);
    assert_eq!(binary.content, None);
    assert_eq!(binary.filename, "a.zip");
}

#[test]
fn archive_content_lists_entries() {
    let content = ArchiveContent {
        files: vec![
            ArchiveEntry { name: "src/".to_string(), size: 0, is_dir: true },
            ArchiveEntry { name: "src/main.rs".to_string(), size: 12, is_dir: false },
        ],
    };
    assert_eq!(content.files.len(), 2);
    assert!(content.files[0].is_dir);
    assert_eq!(content.files[1].name, "src/main.rs");
    assert_eq!(content.files[1].size, 12);
}

#[test]
fn lower_case_names_end_in_zip_or_not() {
    assert!(ends_in_zip("jawaban.zip"));
    assert!(ends_in_zip(".zip"));
    assert!(ends_in_zip("t\u{00e9}l\u{00e9}.zip"));
    assert!(!ends_in_zip("JAWABAN.ZIP"));
    assert!(!ends_in_zip("zip"));
    assert!(!ends_in_zip(""));
    assert!(!ends_in_zip("a.zip "));
    assert!(!ends_in_zip("a.zi"));
    assert!(!ends_in_zip("a-zip"));
}

#[test]
fn lower_case_extensions_are_listed_as_text_or_not() {
    assert!(listed_as_text("rs"));
    assert!(listed_as_text("yaml"));
    assert!(listed_as_text("c"));
    assert!(!listed_as_text("RS"));
    assert!(!listed_as_text(""));
    assert!(!listed_as_text("zip"));
    assert!(!listed_as_text("rs "));
}
