use heliotrope::{info, list, Entity, Info, InfoListOrIntegrated, List};

fn label(value: &str) -> String {
    format!("{{\"value\":\"{}\",\"url\":\"/{}\"}}", value, value)
}

fn row(id: &str) -> String {
    format!(
        "{{\"title\":[{},{}],\"galleryid\":\"{}\",\"thumbnail\":\"https://t/{}.jpg\",\"artist\":[{}],\"group\":[],\"type\":{},\"language\":{},\"series\":[{}],\"characters\":[{},{}],\"tags\":[{}]}}",
        label("part one"),
        label("part two"),
        id,
        id,
        label("someone"),
        label("manga"),
        label("korean"),
        label("a series"),
        label("first"),
        label("second"),
        label("tag")
    )
}

fn info_body() -> String {
    format!(
        "{{\"status\":200,\"title\":{},\"galleryid\":\"77\",\"thumbnail\":\"https://t/77.jpg\",\"artist\":[{}],\"group\":[{}],\"type\":{},\"language\":{},\"series\":[],\"characters\":[],\"tags\":[{},{}]}}",
        label("a title"),
        label("someone"),
        label("a group"),
        label("doujinshi"),
        label("japanese"),
        label("x"),
        label("y")
    )
}

fn values(items: Vec<heliotrope::TagsOrTitleOrArtistOrGroupOrTypeOrLanguageOrSeriesOrCharacters>) -> Vec<String> {
    items.iter().map(|l| l.value()).collect()
}

#[test]
fn info_is_read_field_by_field() {
    let got = info(&info_body()).expect("the body is an info");
    assert_eq!(got.status(), 200);
    assert_eq!(got.title().value(), "a title");
    assert_eq!(got.title().url(), "/a title");
    assert_eq!(got.galleryid(), "77");
    assert_eq!(got.thumbnail(), "https://t/77.jpg");
    assert_eq!(values(got.artist()), vec!["someone"]);
    assert_eq!(values(got.group()), vec!["a group"]);
    assert_eq!(got.type_().value(), "doujinshi");
    assert_eq!(got.type_().url(), "/doujinshi");
    assert_eq!(got.language().value(), "japanese");
    assert!(got.series().is_empty());
    assert!(got.characters().is_empty());
    assert_eq!(values(got.tags()), vec!["x", "y"]);
}

#[test]
fn info_needs_every_key() {
    for key in ["status", "title", "galleryid", "thumbnail", "artist", "group", "type", "language", "series", "characters", "tags"] {
        let renamed = info_body().replace(&format!("\"{}\":", key), "\"other\":");
        assert!(info(&renamed).is_none(), "{} was not required", key);
    }
}

#[test]
fn info_title_is_one_label_not_a_sequence() {
    let body = info_body().replace(&format!("\"title\":{}", label("a title")), &format!("\"title\":[{}]", label("a title")));
    assert!(info(&body).is_none());
}

#[test]
fn label_needs_value_and_url() {
    let no_url = info_body().replace(",\"url\":\"/a group\"", "");
    assert!(info(&no_url).is_none());
    let no_value = info_body().replace("\"value\":\"a group\",", "");
    assert!(info(&no_value).is_none());
    let empty = info_body().replace("\"value\":\"a group\"", "\"value\":\"\"");
    assert_eq!(info(&empty).unwrap().group()[0].value(), "");
}

#[test]
fn list_is_read_row_by_row() {
    let body = format!("{{\"status\":200,\"list\":[{},{}]}}", row("2"), row("1"));
    let got = list(&body).expect("the body is a list");
    assert_eq!(got.status(), 200);
    let rows = got.list();
    assert_eq!(rows.len(), 2);
    assert_eq!(rows[0].galleryid(), "2");
    assert_eq!(rows[1].galleryid(), "1");
    assert_eq!(values(rows[0].title()), vec!["part one", "part two"]);
    assert_eq!(rows[0].thumbnail(), "https://t/2.jpg");
    assert_eq!(values(rows[0].artist()), vec!["someone"]);
    assert!(rows[0].group().is_empty());
    assert_eq!(rows[0].type_().value(), "manga");
    assert_eq!(rows[0].language().value(), "korean");
    assert_eq!(values(rows[0].series()), vec!["a series"]);
    assert_eq!(values(rows[0].characters()), vec!["first", "second"]);
    assert_eq!(values(rows[0].tags()), vec!["tag"]);
}

#[test]
fn empty_list_is_present() {
    let got = list("{\"status\":404,\"list\":[]}").expect("an empty page is a page");
    assert_eq!(got.status(), 404);
    assert!(got.list().is_empty());
}

#[test]
fn list_needs_status_and_list() {
    assert!(list("{\"list\":[]}").is_none());
    assert!(list("{\"status\":200}").is_none());
    assert!(list("{\"status\":200,\"list\":{}}").is_none());
    assert!(list("{\"status\":200,\"list\":null}").is_none());
    assert!(list("not json").is_none());
}

#[test]
fn row_needs_every_key() {
    for key in ["title", "galleryid", "thumbnail", "artist", "group", "type", "language", "series", "characters", "tags"] {
        let bad = row("1").replace(&format!("\"{}\":", key), "\"other\":");
        let body = format!("{{\"status\":200,\"list\":[{},{}]}}", row("2"), bad);
        assert!(list(&body).is_none(), "{} was not required", key);
    }
}

#[test]
fn row_title_is_a_sequence_not_one_label() {
    let bad = row("1").replace(&format!("\"title\":[{},{}]", label("part one"), label("part two")), &format!("\"title\":{}", label("part one")));
    assert!(list(&format!("{{\"status\":200,\"list\":[{}]}}", bad)).is_none());
}

fn same_row(a: &InfoListOrIntegrated, b: &InfoListOrIntegrated) -> bool {
    values(a.title()) == values(b.title())
        && a.galleryid() == b.galleryid()
        && a.thumbnail() == b.thumbnail()
        && values(a.artist()) == values(b.artist())
        && values(a.group()) == values(b.group())
        && a.type_().value() == b.type_().value()
        && a.type_().url() == b.type_().url()
        && a.language().value() == b.language().value()
        && a.language().url() == b.language().url()
        && values(a.series()) == values(b.series())
        && values(a.characters()) == values(b.characters())
        && values(a.tags()) == values(b.tags())
}

#[test]
fn written_list_reads_back_equal() {
    let body = format!("{{\"status\":200,\"list\":[{},{}]}}", row("2"), row("1"));
    let first = list(&body).unwrap();
    let written = serde_json::to_string(&first.encode()).unwrap();
    let second = list(&written).expect("what was written is a list");
    assert_eq!(first.status(), second.status());
    assert_eq!(first.list().len(), second.list().len());
    for (a, b) in first.list().iter().zip(second.list().iter()) {
        assert!(same_row(a, b));
    }
    let third = List::decode(&first.encode()).unwrap();
    assert_eq!(third.list().len(), 2);
}

#[test]
fn written_info_reads_back_equal() {
    let first = info(&info_body()).unwrap();
    let written = serde_json::to_string(&first.encode()).unwrap();
    let second = info(&written).expect("what was written is an info");
    assert_eq!(first.status(), second.status());
    assert_eq!(first.title().value(), second.title().value());
    assert_eq!(first.galleryid(), second.galleryid());
    assert_eq!(first.thumbnail(), second.thumbnail());
    assert_eq!(values(first.artist()), values(second.artist()));
    assert_eq!(values(first.group()), values(second.group()));
    assert_eq!(first.type_().url(), second.type_().url());
    assert_eq!(first.language().value(), second.language().value());
    assert_eq!(values(first.tags()), values(second.tags()));
    let copy: Info = first.duplicate();
    assert_eq!(copy.galleryid(), "77");
}

#[test]
fn clone_of_a_row_is_the_row() {
    let body = format!("{{\"status\":200,\"list\":[{}]}}", row("9"));
    let rows = list(&body).unwrap().list();
    let copy = rows[0].clone();
    assert!(same_row(&rows[0], &copy));
    let label = copy.language().clone();
    assert_eq!((label.value(), label.url()), ("korean".to_string(), "/korean".to_string()));
}
