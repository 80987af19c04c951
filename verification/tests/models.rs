use walrs::page::Page;
use walrs::wh_collection::{self, Collection};
use walrs::wh_collections::{CollectionData, Collections};
use walrs::wh_search::{self, Search};

fn entry(label: &str, id: i32) -> CollectionData {
    CollectionData { id, label: label.to_string(), views: 0, public: 1, count: 0 }
}

fn found(path: &str) -> wh_search::Datum {
    wh_search::Datum {
        id: "x".to_string(),
        url: String::new(),
        short_url: String::new(),
        views: 1,
        favorites: 2,
        source: String::new(),
        purity: wh_search::Purity::Sfw,
        category: wh_search::Category::Anime,
        dimension_x: 1920,
        dimension_y: 1080,
        resolution: "1920x1080".to_string(),
        ratio: "1.78".to_string(),
        file_size: 10,
        file_type: wh_search::FileType::ImagePng,
        created_at: String::new(),
        colors: vec!["#000000".to_string()],
        path: path.to_string(),
        thumbs: wh_search::Thumbs {
            large: String::new(),
            original: String::new(),
            small: String::new(),
        },
    }
}

fn collected(path: &str) -> wh_collection::Datum {
    wh_collection::Datum {
        id: "y".to_string(),
        url: String::new(),
        short_url: String::new(),
        views: 1,
        favorites: 2,
        source: String::new(),
        purity: wh_collection::Purity::Sfw,
        category: wh_collection::Category::General,
        dimension_x: 1920,
        dimension_y: 1080,
        resolution: "1920x1080".to_string(),
        ratio: "1.78".to_string(),
        file_size: 10,
        file_type: wh_collection::FileType::ImageJpeg,
        created_at: String::new(),
        colors: vec![],
        path: path.to_string(),
        thumbs: wh_collection::Thumbs {
            large: String::new(),
            original: String::new(),
            small: String::new(),
        },
    }
}

#[test]
fn collection_label_resolves_to_its_id() {
    let list = Collections { data: vec![entry("Nature", 5), entry("City", 9)] };
    assert_eq!(list.find_id("City"), Some(9));
    assert_eq!(list.find_id("Nature"), Some(5));
}

#[test]
fn collection_label_is_case_sensitive() {
    let list = Collections { data: vec![entry("Nature", 5), entry("City", 9)] };
    assert_eq!(list.find_id("city"), None);
    assert_eq!(list.find_id("CITY"), None);
    assert_eq!(list.find_id("Cit"), None);
    assert_eq!(list.find_id(""), None);
}

#[test]
fn first_of_equal_labels_wins() {
    let list = Collections { data: vec![entry("A", 1), entry("B", 2), entry("B", 3), entry("A", 4)] };
    assert_eq!(list.find_id("B"), Some(2));
    assert_eq!(list.find_id("A"), Some(1));
}

#[test]
fn empty_list_finds_nothing() {
    assert_eq!(Collections::empty().data.len(), 0);
    assert_eq!(Collections::empty().find_id("Nature"), None);
}

#[test]
fn missing_list_becomes_empty_list() {
    assert_eq!(Collections::or_empty(None), Collections::empty());
    let list = Collections { data: vec![entry("Nature", 5)] };
    assert_eq!(Collections::or_empty(Some(list.clone())), list);
}

#[test]
fn empty_collection_is_all_zero() {
    let c = Collection::empty();
    assert!(c.data.is_empty());
    assert_eq!(
        c.meta,
        wh_collection::Meta { current_page: 0, last_page: 0, per_page: 0, total: 0 }
    );
    assert_eq!(Collection::or_empty(None), c);
}

#[test]
fn empty_search_is_all_zero() {
    let s = Search::empty();
    assert!(s.data.is_empty());
    assert_eq!(s.meta.current_page, 0);
    assert_eq!(s.meta.last_page, 0);
    assert_eq!(s.meta.per_page, 0);
    assert_eq!(s.meta.total, 0);
    assert!(s.meta.query.is_none());
    assert!(s.meta.seed.is_none());
    assert_eq!(Search::or_empty(None), s);
}

#[test]
fn arrived_answers_are_kept() {
    let s = Search {
        data: vec![found("https://w.wallhaven.cc/full/ab/one.png")],
        meta: wh_search::Meta {
            current_page: 1,
            last_page: 3,
            per_page: 24,
            total: 60,
            query: Some(serde_json::Value::String("cats".to_string())),
            seed: None,
        },
    };
    assert_eq!(Search::or_empty(Some(s.clone())), s);
    let c = Collection {
        data: vec![collected("https://w.wallhaven.cc/full/ab/two.jpg")],
        meta: wh_collection::Meta { current_page: 1, last_page: 1, per_page: 24, total: 1 },
    };
    assert_eq!(Collection::or_empty(Some(c.clone())), c);
}

#[test]
fn page_lists_paths_in_order() {
    let s = Search {
        data: vec![found("a"), found("b"), found("c")],
        meta: wh_search::Meta {
            current_page: 2,
            last_page: 7,
            per_page: 24,
            total: 150,
            query: None,
            seed: None,
        },
    };
    assert_eq!(
        s.page(),
        Page {
            paths: vec!["a".to_string(), "b".to_string(), "c".to_string()],
            last_page: 7,
            total: 150
        }
    );
    let c = Collection {
        data: vec![collected("z"), collected("y")],
        meta: wh_collection::Meta { current_page: 1, last_page: 4, per_page: 24, total: 80 },
    };
    assert_eq!(
        c.page(),
        Page { paths: vec!["z".to_string(), "y".to_string()], last_page: 4, total: 80 }
    );
}

#[test]
fn empty_answers_give_the_empty_page() {
    assert_eq!(Search::empty().page(), Page::empty());
    assert_eq!(Collection::empty().page(), Page::empty());
    assert_eq!(Page::empty(), Page { paths: vec![], last_page: 0, total: 0 });
}

#[test]
fn page_count_is_one_more_than_last_page() {
    assert_eq!(Page::empty().page_count(), 1);
    assert_eq!(Page { paths: vec![], last_page: 2, total: 50 }.page_count(), 3);
    assert_eq!(Page { paths: vec![], last_page: i32::MAX, total: 1 }.page_count(), 2147483648);
    assert_eq!(Page { paths: vec![], last_page: -1, total: 0 }.page_count(), 0);
}
