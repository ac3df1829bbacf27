use heliotrope::{galleryinfo, Entity, GalleryInfo};

const SAMPLE: &str = "{\"status\":200,\"language_localname\":\"\u{d55c}\u{ad6d}\u{c5b4}\",\"language\":\"korean\",\"date\":\"2020-01-01\",\"files\":[{\"width\":1280,\"height\":1807,\"name\":\"001.webp\",\"hash\":\"abc\",\"haswebp\":1,\"hasavifsmalltn\":0,\"hasavif\":0}],\"tags\":[],\"japanese_title\":null,\"title\":\"Example\",\"id\":\"12345\",\"type\":\"doujinshi\"}";

fn with_flag(key: &str, flag: &str) -> String {
    let file = "{\"width\":1,\"height\":2,\"name\":\"n\",\"hash\":\"h\",\"haswebp\":0,\"hasavifsmalltn\":0,\"hasavif\":0}";
    let file = file.replace(&format!("\"{}\":0", key), &format!("\"{}\":{}", key, flag));
    format!(
        "{{\"status\":200,\"language_localname\":\"a\",\"language\":\"b\",\"date\":\"c\",\"files\":[{}],\"tags\":[],\"title\":\"t\",\"id\":\"1\",\"type\":\"x\"}}",
        file
    )
}

#[test]
fn sample_gallery_is_read_field_by_field() {
    let info = galleryinfo(SAMPLE).expect("the sample is a gallery");
    assert_eq!(info.status(), 200);
    assert_eq!(info.language_localname(), "\u{d55c}\u{ad6d}\u{c5b4}");
    assert_eq!(info.language(), "korean");
    assert_eq!(info.date(), "2020-01-01");
    assert_eq!(info.title(), "Example");
    assert_eq!(info.id(), "12345");
    assert_eq!(info.type_(), "doujinshi");
    assert!(info.tags().is_empty());
    assert_eq!(info.japanese_title(), None);
    let files = info.files();
    assert_eq!(files.len(), 1);
    assert_eq!(files[0].width(), 1280);
    assert_eq!(files[0].height(), 1807);
    assert_eq!(files[0].name(), "001.webp");
    assert_eq!(files[0].hash(), "abc");
    assert!(files[0].haswebp());
    assert!(!files[0].hasavifsmalltn());
    assert!(!files[0].hasavif());
}

#[test]
fn flag_zero_is_false() {
    let info = galleryinfo(&with_flag("hasavif", "0")).unwrap();
    assert!(!info.files()[0].hasavif());
    assert!(!info.files()[0].haswebp());
    assert!(!info.files()[0].hasavifsmalltn());
}

#[test]
fn flag_one_is_true() {
    assert!(galleryinfo(&with_flag("hasavif", "1")).unwrap().files()[0].hasavif());
    assert!(galleryinfo(&with_flag("haswebp", "1")).unwrap().files()[0].haswebp());
    assert!(galleryinfo(&with_flag("hasavifsmalltn", "1")).unwrap().files()[0].hasavifsmalltn());
}

#[test]
fn flag_beyond_one_is_true() {
    assert!(galleryinfo(&with_flag("hasavif", "2")).unwrap().files()[0].hasavif());
    assert!(galleryinfo(&with_flag("haswebp", "255")).unwrap().files()[0].haswebp());
    assert!(galleryinfo(&with_flag("hasavifsmalltn", "18446744073709551615"))
        .unwrap()
        .files()[0]
        .hasavifsmalltn());
}

#[test]
fn flag_sets_only_its_own_accessor() {
    let files = galleryinfo(&with_flag("hasavif", "7")).unwrap().files();
    assert!(files[0].hasavif());
    assert!(!files[0].haswebp());
    assert!(!files[0].hasavifsmalltn());
}

#[test]
fn negative_flag_is_refused() {
    assert!(galleryinfo(&with_flag("hasavif", "-1")).is_none());
}

#[test]
fn fractional_number_is_refused() {
    assert!(galleryinfo(&with_flag("hasavif", "1.0")).is_none());
    assert!(galleryinfo(&with_flag("hasavif", "1e0")).is_none());
}

#[test]
fn number_beyond_the_integers_is_refused() {
    assert!(galleryinfo(&with_flag("hasavif", "18446744073709551616")).is_none());
}

#[test]
fn text_in_place_of_a_number_is_refused() {
    assert!(galleryinfo(&with_flag("hasavif", "\"1\"")).is_none());
    assert!(galleryinfo(&SAMPLE.replace("\"status\":200", "\"status\":\"200\"")).is_none());
}

#[test]
fn number_in_place_of_a_text_is_refused() {
    assert!(galleryinfo(&SAMPLE.replace("\"id\":\"12345\"", "\"id\":12345")).is_none());
}

#[test]
fn every_required_key_is_required() {
    for key in ["status", "language_localname", "language", "date", "files", "tags", "title", "id", "type"] {
        let renamed = SAMPLE.replace(&format!("\"{}\":", key), "\"other\":");
        assert!(galleryinfo(&renamed).is_none(), "{} was not required", key);
    }
}

#[test]
fn missing_status_is_absent() {
    let body = SAMPLE.replace("\"status\":200,", "");
    assert!(galleryinfo(&body).is_none());
}

#[test]
fn japanese_title_may_be_missing_null_or_text() {
    let missing = SAMPLE.replace("\"japanese_title\":null,", "");
    assert_eq!(galleryinfo(&missing).unwrap().japanese_title(), None);
    assert_eq!(galleryinfo(SAMPLE).unwrap().japanese_title(), None);
    let given = SAMPLE.replace("\"japanese_title\":null", "\"japanese_title\":\"\u{4f8b}\"");
    assert_eq!(galleryinfo(&given).unwrap().japanese_title(), Some("\u{4f8b}".to_string()));
    let empty = SAMPLE.replace("\"japanese_title\":null", "\"japanese_title\":\"\"");
    assert_eq!(galleryinfo(&empty).unwrap().japanese_title(), Some(String::new()));
}

#[test]
fn japanese_title_of_another_type_is_refused() {
    let body = SAMPLE.replace("\"japanese_title\":null", "\"japanese_title\":5");
    assert!(galleryinfo(&body).is_none());
}

#[test]
fn unknown_keys_are_passed_over() {
    let body = SAMPLE.replace("\"status\":200", "\"status\":200,\"extra\":{\"deep\":[1,2,3]}");
    assert_eq!(galleryinfo(&body).unwrap().status(), 200);
}

#[test]
fn an_array_is_no_gallery() {
    assert!(galleryinfo("[200]").is_none());
    assert!(galleryinfo("[]").is_none());
}

#[test]
fn text_that_is_not_json_is_absent() {
    for body in ["", "{", "{\"status\":200", "status=200", "{'status':200}", "nul", "{\"status\":200,}"] {
        assert!(galleryinfo(body).is_none(), "{:?} was read", body);
    }
    let cut = &SAMPLE[..SAMPLE.len() - 1];
    assert!(galleryinfo(cut).is_none());
}

#[test]
fn json_of_another_kind_is_absent() {
    for body in ["null", "true", "12", "\"text\"", "{}"] {
        assert!(galleryinfo(body).is_none(), "{:?} was read", body);
    }
}

#[test]
fn empty_containers_are_present() {
    let body = "{\"status\":0,\"language_localname\":\"\",\"language\":\"\",\"date\":\"\",\"files\":[],\"tags\":[],\"title\":\"\",\"id\":\"\",\"type\":\"\"}";
    let info = galleryinfo(body).expect("an empty gallery is a gallery");
    assert_eq!(info.status(), 0);
    assert!(info.files().is_empty());
    assert!(info.tags().is_empty());
    assert_eq!(info.title(), "");
    assert_eq!(info.japanese_title(), None);
}

#[test]
fn pages_and_tags_keep_their_order() {
    let body = "{\"status\":1,\"language_localname\":\"a\",\"language\":\"b\",\"date\":\"c\",\"files\":[{\"width\":1,\"height\":1,\"name\":\"1.jpg\",\"hash\":\"x\",\"haswebp\":0,\"hasavifsmalltn\":0,\"hasavif\":0},{\"width\":2,\"height\":2,\"name\":\"2.jpg\",\"hash\":\"y\",\"haswebp\":0,\"hasavifsmalltn\":0,\"hasavif\":0}],\"tags\":[{\"value\":\"b\",\"url\":\"/b\"},{\"value\":\"a\",\"url\":\"/a\"},{\"value\":\"b\",\"url\":\"/b\"}],\"title\":\"t\",\"id\":\"1\",\"type\":\"x\"}";
    let info = galleryinfo(body).unwrap();
    let names: Vec<String> = info.files().iter().map(|f| f.name()).collect();
    assert_eq!(names, vec!["1.jpg", "2.jpg"]);
    let tags: Vec<(String, String)> = info.tags().iter().map(|t| (t.value(), t.url())).collect();
    assert_eq!(
        tags,
        vec![
            ("b".to_string(), "/b".to_string()),
            ("a".to_string(), "/a".to_string()),
            ("b".to_string(), "/b".to_string())
        ]
    );
}

#[test]
fn one_bad_page_refuses_the_gallery() {
    let body = SAMPLE.replace("\"hash\":\"abc\",", "");
    assert!(galleryinfo(&body).is_none());
    let body = SAMPLE.replace("\"files\":[", "\"files\":[7,");
    assert!(galleryinfo(&body).is_none());
}

#[test]
fn accessors_hand_out_copies() {
    let info = galleryinfo(SAMPLE).unwrap();
    let mut title = info.title();
    title.push_str(" changed");
    let mut files = info.files();
    files.clear();
    assert_eq!(info.title(), "Example");
    assert_eq!(info.files().len(), 1);
}

fn same_gallery(a: &GalleryInfo, b: &GalleryInfo) -> bool {
    let files = |g: &GalleryInfo| -> Vec<(usize, String, bool, bool, String, usize, bool)> {
        g.files()
            .iter()
            .map(|f| (f.width(), f.hash(), f.haswebp(), f.hasavifsmalltn(), f.name(), f.height(), f.hasavif()))
            .collect()
    };
    let tags = |g: &GalleryInfo| -> Vec<(String, String)> {
        g.tags().iter().map(|t| (t.value(), t.url())).collect()
    };
    a.status() == b.status()
        && a.language_localname() == b.language_localname()
        && a.language() == b.language()
        && a.date() == b.date()
        && files(a) == files(b)
        && tags(a) == tags(b)
        && a.japanese_title() == b.japanese_title()
        && a.title() == b.title()
        && a.id() == b.id()
        && a.type_() == b.type_()
}

#[test]
fn written_gallery_reads_back_equal() {
    let tagged = SAMPLE
        .replace("\"tags\":[]", "\"tags\":[{\"value\":\"v \\\" \u{e9}\",\"url\":\"/tag/v\"}]")
        .replace("\"japanese_title\":null", "\"japanese_title\":\"\u{65e5}\u{672c}\"");
    for body in [SAMPLE.to_string(), tagged] {
        let first = galleryinfo(&body).unwrap();
        let written = serde_json::to_string(&first.encode()).unwrap();
        let second = galleryinfo(&written).expect("what was written is a gallery");
        assert!(same_gallery(&first, &second));
        assert!(same_gallery(&first, &GalleryInfo::decode(&first.encode()).unwrap()));
    }
}

#[test]
fn absent_japanese_title_is_written_as_absent() {
    let first = galleryinfo(&SAMPLE.replace("\"japanese_title\":null,", "")).unwrap();
    let document = first.encode();
    assert_eq!(document.get("japanese_title"), None);
    let written = serde_json::to_string(&document).unwrap();
    let second = galleryinfo(&written).unwrap();
    assert_eq!(second.japanese_title(), None);
    assert_ne!(second.japanese_title(), Some(String::new()));
    assert_ne!(second.japanese_title(), Some("null".to_string()));
}

#[test]
fn written_gallery_has_the_keys_of_the_schema() {
    let given = SAMPLE.replace("\"japanese_title\":null", "\"japanese_title\":\"jt\"");
    let document = galleryinfo(&given).unwrap().encode();
    assert_eq!(document.get("japanese_title").and_then(|v| v.as_str()), Some("jt"));
    let members = document.as_object().expect("a gallery is written as an object");
    let mut keys: Vec<&str> = members.keys().map(|k| k.as_str()).collect();
    keys.sort();
    assert_eq!(
        keys,
        vec![
            "date", "files", "id", "japanese_title", "language", "language_localname", "status", "tags",
            "title", "type"
        ]
    );
    assert_eq!(document.get("status").and_then(|v| v.as_u64()), Some(200));
    assert_eq!(document.get("type").and_then(|v| v.as_str()), Some("doujinshi"));
    let page = &document.get("files").unwrap().as_array().unwrap()[0];
    assert_eq!(page.get("haswebp").and_then(|v| v.as_u64()), Some(1));
    assert_eq!(page.get("width").and_then(|v| v.as_u64()), Some(1280));
}

#[test]
fn duplicate_is_equal_and_independent() {
    let first = galleryinfo(SAMPLE).unwrap();
    let second = first.duplicate();
    drop(first);
    let again = galleryinfo(SAMPLE).unwrap();
    assert!(same_gallery(&again, &second));
}

#[test]
fn clone_of_a_page_is_the_page() {
    let files = galleryinfo(SAMPLE).unwrap().files();
    let copy = files[0].clone();
    assert_eq!(copy.name(), "001.webp");
    assert_eq!((copy.width(), copy.height()), (1280, 1807));
    assert_eq!((copy.haswebp(), copy.hasavifsmalltn(), copy.hasavif()), (true, false, false));
    assert_eq!(copy.hash(), files[0].hash());
}
