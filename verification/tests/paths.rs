use batch_upscale::paths::file_name;
use batch_upscale::paths::has_jpeg_suffix;
use batch_upscale::paths::join;
use batch_upscale::paths::names_jpeg;
use batch_upscale::paths::output_directory;
use batch_upscale::paths::suffix;

fn name_of(path: &str) -> Option<String> {
    file_name(path)
}

#[test]
fn file_name_is_the_final_component() {
    assert_eq!(name_of("a/cat.jpg"), Some("cat.jpg".to_string()));
    assert_eq!(name_of("cat.jpg"), Some("cat.jpg".to_string()));
    assert_eq!(name_of("/abs/dir/photo.jpeg"), Some("photo.jpeg".to_string()));
    assert_eq!(name_of("dir/.hidden"), Some(".hidden".to_string()));
    assert_eq!(name_of("dir/a.b.c"), Some("a.b.c".to_string()));
}

#[test]
fn file_name_ignores_trailing_separators_and_dots() {
    assert_eq!(name_of("a/b/"), Some("b".to_string()));
    assert_eq!(name_of("a/b//"), Some("b".to_string()));
    assert_eq!(name_of("a/b/."), Some("b".to_string()));
    assert_eq!(name_of("foo.txt/.//"), Some("foo.txt".to_string()));
    assert_eq!(name_of("a./"), Some("a.".to_string()));
}

#[test]
fn file_name_is_missing_where_nothing_is_named() {
    assert_eq!(name_of(""), None);
    assert_eq!(name_of("/"), None);
    assert_eq!(name_of("//"), None);
    assert_eq!(name_of("."), None);
    assert_eq!(name_of("./"), None);
    assert_eq!(name_of(".."), None);
    assert_eq!(name_of("a/.."), None);
    assert_eq!(name_of("a/../"), None);
}

#[test]
fn file_name_keeps_names_of_dots() {
    assert_eq!(name_of("a/..."), Some("...".to_string()));
    assert_eq!(name_of("a/..b"), Some("..b".to_string()));
    assert_eq!(name_of("a/b.."), Some("b..".to_string()));
}

#[test]
fn file_name_counts_characters_not_bytes() {
    assert_eq!(name_of("bücher/straße.jpg"), Some("straße.jpg".to_string()));
    assert_eq!(name_of("写真/猫.jpeg/"), Some("猫.jpeg".to_string()));
}

#[test]
fn file_name_agrees_with_the_standard_library_on_unix() {
    if std::path::MAIN_SEPARATOR != '/' {
        return;
    }
    let samples = [
        "", "/", ".", "..", "a", "a/", "a/.", "a/..", "a/b", "a//b//", "./a", "../a", "a/./b",
        "a/b/./.", ".a", "a.", "a/.b/", "/a/b.c", "a/...", "a/b/..", "a/.../.", "x/4x/cat.jpg",
    ];
    for sample in samples {
        let expected = std::path::Path::new(sample)
            .file_name()
            .and_then(|name| name.to_str())
            .map(|name| name.to_string());
        assert_eq!(name_of(sample), expected, "for {:?}", sample);
    }
}

#[test]
fn suffix_follows_the_last_dot() {
    assert_eq!(suffix("cat.jpg"), Some("jpg".to_string()));
    assert_eq!(suffix("archive.tar.gz"), Some("gz".to_string()));
    assert_eq!(suffix("a."), Some(String::new()));
    assert_eq!(suffix("a..b"), Some("b".to_string()));
    assert_eq!(suffix(".a.b"), Some("b".to_string()));
}

#[test]
fn suffix_is_missing_without_an_inner_dot() {
    assert_eq!(suffix("cat"), None);
    assert_eq!(suffix(""), None);
    assert_eq!(suffix(".hidden"), None);
    assert_eq!(suffix(".jpg"), None);
}

#[test]
fn suffix_agrees_with_the_standard_library() {
    let samples = ["cat.jpg", "cat", ".hidden", "a.tar.gz", "a.", ".a.b", "a..b", "...", "ä.ö"];
    for sample in samples {
        let expected = std::path::Path::new(sample)
            .extension()
            .and_then(|text| text.to_str())
            .map(|text| text.to_string());
        assert_eq!(suffix(sample), expected, "for {:?}", sample);
    }
}

#[test]
fn names_jpeg_ignores_ascii_case() {
    for text in ["jpg", "JPG", "Jpg", "jPg", "jpeg", "JPEG", "JpEg", "jpeG"] {
        assert!(names_jpeg(text), "{:?}", text);
    }
}

#[test]
fn names_jpeg_rejects_everything_else() {
    for text in ["", "j", "jp", "jpe", "jpgx", "jpegs", "png", "gpj", "jp g", "ĵpg", "jpg."] {
        assert!(!names_jpeg(text), "{:?}", text);
    }
}

#[test]
fn names_jpeg_agrees_with_lowercasing() {
    let samples = ["jpg", "JPG", "jpeg", "JPEG", "JpG", "png", "jpe", "ＪＰＧ", "KPG", "jpg ", "İpg"];
    for sample in samples {
        let lowered = sample.to_lowercase();
        assert_eq!(names_jpeg(sample), lowered == "jpg" || lowered == "jpeg", "{:?}", sample);
    }
}

#[test]
fn scan_takes_jpeg_suffixes_only() {
    assert!(has_jpeg_suffix("x/y/photo.JPEG"));
    assert!(has_jpeg_suffix("photo.jpg"));
    assert!(has_jpeg_suffix("x/a.png.jpg"));
    assert!(has_jpeg_suffix("x/photo.jpg/"));
    assert!(!has_jpeg_suffix("x/photo.png"));
    assert!(!has_jpeg_suffix("x/jpg"));
    assert!(!has_jpeg_suffix("x/.jpg"));
    assert!(!has_jpeg_suffix("x.jpg/photo"));
    assert!(!has_jpeg_suffix("x/photo.jpg/.."));
    assert!(!has_jpeg_suffix(""));
}

#[test]
fn join_places_a_name_in_a_directory() {
    assert_eq!(join("root", "4x"), "root/4x");
    assert_eq!(join("root/", "4x"), "root/4x");
    assert_eq!(join("/", "4x"), "/4x");
    assert_eq!(join("", "4x"), "4x");
    assert_eq!(join("a/b", "cat.jpg"), "a/b/cat.jpg");
    assert_eq!(join("a", ""), "a/");
}

#[test]
fn join_lets_a_rooted_name_stand_alone() {
    assert_eq!(join("a/b", "/etc/x"), "/etc/x");
}

#[test]
fn join_agrees_with_the_standard_library_on_unix() {
    if std::path::MAIN_SEPARATOR != '/' {
        return;
    }
    let cases = [("root", "4x"), ("root/", "4x"), ("", "4x"), ("/", "x"), ("a", "/b"), ("a//", "b")];
    for (directory, name) in cases {
        let expected = std::path::Path::new(directory).join(name);
        assert_eq!(join(directory, name), expected.to_str().unwrap(), "{:?}", (directory, name));
    }
}

#[test]
fn output_directory_is_named_4x_below_the_root() {
    assert_eq!(output_directory("scan"), "scan/4x");
    assert_eq!(output_directory("/data/photos/"), "/data/photos/4x");
    assert_eq!(output_directory("."), "./4x");
}

#[test]
fn joined_output_keeps_its_name() {
    for name in ["cat.jpg", ".hidden", "a.", "...", "ö.jpeg"] {
        for directory in ["", "out", "out/", "/", "a/b/4x"] {
            assert_eq!(file_name(&join(directory, name)), Some(name.to_string()));
        }
    }
}

#[test]
fn same_name_in_two_directories_is_one_output() {
    let directory = output_directory("root");
    let first = join(&directory, &file_name("root/a/cat.jpg").unwrap());
    let second = join(&directory, &file_name("root/b/cat.jpg").unwrap());
    assert_eq!(first, "root/4x/cat.jpg");
    assert_eq!(second, "root/4x/cat.jpg");
}

#[test]
fn scan_predicate_agrees_with_the_lowercased_extension() {
    if std::path::MAIN_SEPARATOR != '/' {
        return;
    }
    let samples = [
        "a/b.jpg", "a/b.JPG", "a/b.jpeg", "a/b.JpEg", "a/b.png", "a/b", "a/.jpg", "a.jpg/b",
        "a/b.jpg/", "a/b.jpg/.", "a/b.jpg/..", "b.jpg.bak", "b.bak.jpg", "a/b.jpg ", "ö.JPG", "",
    ];
    for sample in samples {
        let expected = std::path::Path::new(sample)
            .extension()
            .and_then(|text| text.to_str())
            .map(|text| text.to_lowercase())
            .map_or(false, |text| text == "jpg" || text == "jpeg");
        assert_eq!(has_jpeg_suffix(sample), expected, "for {:?}", sample);
    }
}

fn short_paths(alphabet: &[char], longest: usize) -> Vec<String> {
    let mut all = vec![String::new()];
    let mut last = vec![String::new()];
    for _ in 0..longest {
        let mut next = Vec::new();
        for prefix in &last {
            for letter in alphabet {
                let mut longer = prefix.clone();
                longer.push(*letter);
                next.push(longer);
            }
        }
        all.extend(next.iter().cloned());
        last = next;
    }
    all
}

#[test]
fn file_name_agrees_with_the_standard_library_on_every_short_path() {
    if std::path::MAIN_SEPARATOR != '/' {
        return;
    }
    for path in short_paths(&['a', '.', '/'], 7) {
        let expected = std::path::Path::new(&path)
            .file_name()
            .and_then(|name| name.to_str())
            .map(|name| name.to_string());
        assert_eq!(file_name(&path), expected, "for {:?}", path);
    }
}

#[test]
fn suffix_of_the_name_agrees_with_the_standard_library_on_every_short_path() {
    if std::path::MAIN_SEPARATOR != '/' {
        return;
    }
    for path in short_paths(&['a', '.', '/'], 7) {
        let expected = std::path::Path::new(&path)
            .extension()
            .and_then(|text| text.to_str())
            .map(|text| text.to_string());
        let found = file_name(&path).and_then(|name| suffix(&name));
        assert_eq!(found, expected, "for {:?}", path);
    }
}

#[test]
fn join_agrees_with_the_standard_library_on_every_short_pair() {
    if std::path::MAIN_SEPARATOR != '/' {
        return;
    }
    let parts = short_paths(&['a', '.', '/'], 3);
    for directory in &parts {
        for name in &parts {
            let expected = std::path::Path::new(directory).join(name);
            assert_eq!(join(directory, name), expected.to_str().unwrap(), "{:?}", (directory, name));
        }
    }
}

#[test]
fn scan_predicate_agrees_with_the_lowercased_extension_on_every_short_path() {
    if std::path::MAIN_SEPARATOR != '/' {
        return;
    }
    for path in short_paths(&['j', 'P', 'g', '.', '/'], 6) {
        let expected = std::path::Path::new(&path)
            .extension()
            .and_then(|text| text.to_str())
            .map(|text| text.to_lowercase())
            .map_or(false, |text| text == "jpg" || text == "jpeg");
        assert_eq!(has_jpeg_suffix(&path), expected, "for {:?}", path);
    }
}
