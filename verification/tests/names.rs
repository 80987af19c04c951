use walrs::download::{file_name, file_name_of_segments, place, NameError, Placement, Transfer};
use walrs::endpoints::{
    answer_counts, append_decimal, search_url, user_collection_url, user_collections_url, user_query,
    METADATA_ACCEPT, METADATA_TIMEOUT_SECS, STATUS_OK,
};

#[test]
fn file_name_is_last_path_segment() {
    assert_eq!(file_name("https://host/path/to/image123.png"), Ok("image123.png".to_string()));
    assert_eq!(file_name("https://host/image123.png"), Ok("image123.png".to_string()));
}

#[test]
fn file_name_ignores_query_and_fragment() {
    assert_eq!(file_name("https://host/a/b.png?x=1/2#frag/ment"), Ok("b.png".to_string()));
}

#[test]
fn trailing_slash_gives_placeholder() {
    assert_eq!(file_name("https://host/path/to/"), Ok("wh.img".to_string()));
}

#[test]
fn no_path_gives_placeholder() {
    assert_eq!(file_name("https://host"), Ok("wh.img".to_string()));
    assert_eq!(file_name("https://host/"), Ok("wh.img".to_string()));
}

#[test]
fn address_without_segments_gives_placeholder() {
    assert_eq!(file_name("data:text/plain,HelloWorld"), Ok("wh.img".to_string()));
}

#[test]
fn text_that_is_no_url_is_refused() {
    assert_eq!(file_name("image123.png"), Err(NameError::NotAUrl));
    assert_eq!(file_name(""), Err(NameError::NotAUrl));
    assert_eq!(file_name("/path/to/image123.png"), Err(NameError::NotAUrl));
}

#[test]
fn segments_decide_the_name() {
    let parts = |v: &[&str]| Some(v.iter().map(|s| s.to_string()).collect::<Vec<String>>());
    assert_eq!(file_name_of_segments(&parts(&["path", "to", "image123.png"])), "image123.png");
    assert_eq!(file_name_of_segments(&parts(&["path", "to", ""])), "wh.img");
    assert_eq!(file_name_of_segments(&parts(&[""])), "wh.img");
    assert_eq!(file_name_of_segments(&parts(&[])), "wh.img");
    assert_eq!(file_name_of_segments(&None), "wh.img");
    assert_eq!(file_name_of_segments(&parts(&["", "x"])), "x");
}

#[test]
fn existing_file_is_skipped() {
    assert_eq!(
        place("image123.png".to_string(), true),
        Placement {
            file_name: "image123.png".to_string(),
            transfer: Transfer::Skip,
            notice: "image123.png already exists".to_string(),
        }
    );
}

#[test]
fn missing_file_is_written() {
    assert_eq!(
        place("image123.png".to_string(), false),
        Placement {
            file_name: "image123.png".to_string(),
            transfer: Transfer::Write,
            notice: "Downloading image123.png".to_string(),
        }
    );
}

#[test]
fn second_download_of_same_address_writes_nothing() {
    let name = file_name("https://host/path/to/image123.png").unwrap();
    let first = place(name.clone(), false);
    assert_eq!(first.transfer, Transfer::Write);
    let again = file_name("https://host/path/to/image123.png").unwrap();
    assert_eq!(again, first.file_name);
    assert_eq!(place(again, true).transfer, Transfer::Skip);
}

#[test]
fn decimal_text_of_integers() {
    let show = |i: i32| {
        let mut s = String::from("n=");
        append_decimal(&mut s, i);
        s
    };
    assert_eq!(show(0), "n=0");
    assert_eq!(show(7), "n=7");
    assert_eq!(show(10), "n=10");
    assert_eq!(show(1905), "n=1905");
    assert_eq!(show(-1), "n=-1");
    assert_eq!(show(i32::MAX), "n=2147483647");
    assert_eq!(show(i32::MIN), "n=-2147483648");
}

#[test]
fn endpoint_addresses() {
    assert_eq!(user_collections_url("bob"), "https://wallhaven.cc/api/v1/collections/bob");
    assert_eq!(
        user_collection_url("bob", 9, 2),
        "https://wallhaven.cc/api/v1/collections/bob/9?page=2"
    );
    assert_eq!(
        user_collection_url("bob", 1234567, 10),
        "https://wallhaven.cc/api/v1/collections/bob/1234567?page=10"
    );
    assert_eq!(search_url("cats", 1), "https://wallhaven.cc/api/v1/search?q=cats&page=1");
    assert_eq!(
        search_url("two words", 31),
        "https://wallhaven.cc/api/v1/search?q=two words&page=31"
    );
    assert_eq!(user_query("bob"), "@bob");
    assert_eq!(search_url(&user_query("bob"), 3), "https://wallhaven.cc/api/v1/search?q=@bob&page=3");
}

#[test]
fn metadata_requests_time_out_after_three_seconds() {
    assert_eq!(METADATA_TIMEOUT_SECS, 3);
}

#[test]
fn metadata_requests_accept_plain_text() {
    assert_eq!(METADATA_ACCEPT, "text/plain");
}

#[test]
fn only_status_200_counts() {
    assert_eq!(STATUS_OK, 200);
    assert!(answer_counts(200));
    assert!(!answer_counts(201));
    assert!(!answer_counts(204));
    assert!(!answer_counts(301));
    assert!(!answer_counts(404));
    assert!(!answer_counts(429));
    assert!(!answer_counts(500));
    assert!(!answer_counts(0));
    assert!(!answer_counts(u16::MAX));
}
