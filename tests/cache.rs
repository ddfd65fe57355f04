use ytmeta::cache::MetadataCache;
use ytmeta::fetch::{get_metadata, plan_after_read, FetchPlan};
use ytmeta::id::Id;
use ytmeta::MetaError;
use youtube_dl::{SingleVideo, YoutubeDlOutput};

fn sample_text() -> String {
    let mut video = SingleVideo::default();
    video.id = "dVteKLjhKFM".to_string();
    video.title = Some("A title".to_string());
    MetadataCache::encode_document(&YoutubeDlOutput::SingleVideo(Box::new(video))).unwrap()
}

#[test]
fn encoded_document_is_json_text() {
    let text = sample_text();
    assert!(text.starts_with('{'));
    assert!(text.contains("dVteKLjhKFM"));
}

#[test]
fn set_then_get_returns_document() {
    let mut c = MetadataCache::new();
    let k = Id::from_text("abc");
    let d = sample_text();
    assert_eq!(c.cache_set(k.clone(), d.clone()), Some(d.clone()));
    assert_eq!(c.cache_get(&k, None).unwrap(), Some(d.clone()));
    assert_eq!(c.cache_get(&k, Some("garbage".to_string())).unwrap(), Some(d));
}

#[test]
fn get_of_unknown_id_without_file_is_none() {
    let c = MetadataCache::new();
    assert_eq!(c.cache_get(&Id::from_text("nothing"), None).unwrap(), None);
}

#[test]
fn get_reads_stored_file_without_caching_it() {
    let c = MetadataCache::new();
    let k = Id::from_text("abc");
    let d = sample_text();
    assert_eq!(c.cache_get(&k, Some(d.clone())).unwrap(), Some(d));
    assert_eq!(c.cached(&k), None);
}

#[test]
fn get_of_corrupt_file_fails() {
    let c = MetadataCache::new();
    let r = c.cache_get(&Id::from_text("abc"), Some("{not json".to_string()));
    assert!(matches!(r, Err(MetaError::JsonErr(_))));
}

#[test]
fn remove_then_get_is_none() {
    let mut c = MetadataCache::new();
    let k = Id::from_text("abc");
    let d = sample_text();
    c.cache_set(k.clone(), d.clone());
    assert_eq!(c.cache_remove(&k), Some(d));
    assert_eq!(c.cached(&k), None);
    assert_eq!(c.cache_get(&k, None).unwrap(), None);
    assert_eq!(c.cache_remove(&k), None);
}

#[test]
fn refresh_toggle_returns_previous() {
    let mut c = MetadataCache::new();
    assert!(!c.refresh());
    assert!(!c.cache_set_refresh(true));
    assert!(c.refresh());
    assert!(c.cache_set_refresh(false));
    assert!(!c.refresh());
}

#[test]
fn file_names_round_trip() {
    let k = Id::from_text("dVteKLjhKFM");
    let name = MetadataCache::file_name(&k);
    assert_eq!(name, "dVteKLjhKFM.json");
    assert_eq!(MetadataCache::id_from_file_name(&name).as_str(), "dVteKLjhKFM");
    assert_eq!(MetadataCache::id_from_file_name("a.json.json").as_str(), "a.json");
    assert_eq!(MetadataCache::id_from_file_name("plain").as_str(), "plain");
    assert_eq!(MetadataCache::id_from_file_name(".json").as_str(), "");
}

#[test]
fn warm_up_loads_every_file() {
    let d = sample_text();
    let mut c = MetadataCache::new();
    let files = vec![("abc.json".to_string(), d.clone()), ("xyz.json".to_string(), d.clone())];
    c.init_cache(&files).unwrap();
    assert_eq!(c.cached(&Id::from_text("abc")), Some(Some(d.clone())));
    assert_eq!(c.cache_get(&Id::from_text("xyz"), None).unwrap(), Some(d));
}

#[test]
fn warm_up_restores_what_was_set() {
    let d = sample_text();
    let k = Id::from_text("dVteKLjhKFM");
    let mut first = MetadataCache::new();
    first.cache_set(k.clone(), d.clone());
    let files = vec![(MetadataCache::file_name(&k), d.clone())];
    let mut second = MetadataCache::new();
    second.init_cache(&files).unwrap();
    assert_eq!(second.cache_get(&k, None).unwrap(), Some(d));
}

#[test]
fn warm_up_with_corrupt_file_fails() {
    let mut c = MetadataCache::new();
    let files = vec![("abc.json".to_string(), "{not json".to_string())];
    assert!(matches!(c.init_cache(&files), Err(MetaError::JsonErr(_))));
}

#[test]
fn second_fetch_is_served_from_cache() {
    let url = "https://www.youtube.com/watch?v=dVteKLjhKFM";
    let mut c = MetadataCache::new();
    let d = sample_text();
    let id = match get_metadata(&c, url).unwrap() {
        FetchPlan::ReadStored(id) => id,
        _ => panic!("first fetch should look at the stored file"),
    };
    assert_eq!(id.as_str(), "dVteKLjhKFM");
    let id = match plan_after_read(&c, id, None).unwrap() {
        FetchPlan::Remote(id) => id,
        _ => panic!("nothing stored: the remote side is needed"),
    };
    c.cache_set(id, d.clone());
    match get_metadata(&c, url).unwrap() {
        FetchPlan::Serve(doc) => assert_eq!(doc, d),
        _ => panic!("second fetch should be served from the cache"),
    }
}

#[test]
fn refresh_forces_remote_fetch() {
    let url = "https://youtu.be/dVteKLjhKFM";
    let mut c = MetadataCache::new();
    c.cache_set(Id::from_text("dVteKLjhKFM"), sample_text());
    c.cache_set_refresh(true);
    for _ in 0..2 {
        match get_metadata(&c, url).unwrap() {
            FetchPlan::Remote(id) => assert_eq!(id.as_str(), "dVteKLjhKFM"),
            _ => panic!("refresh should bypass the cache"),
        }
    }
}

#[test]
fn removed_entry_sends_to_stored_file() {
    let mut c = MetadataCache::new();
    let files = vec![("k.json".to_string(), sample_text())];
    c.init_cache(&files).unwrap();
    let k = Id::from_text("k");
    c.cache_remove(&k);
    assert!(matches!(get_metadata(&c, "https://youtu.be/k").unwrap(), FetchPlan::ReadStored(_)));
}

#[test]
fn stored_file_is_served() {
    let c = MetadataCache::new();
    let d = sample_text();
    match plan_after_read(&c, Id::from_text("abc"), Some(d.clone())).unwrap() {
        FetchPlan::Serve(doc) => assert_eq!(doc, d),
        _ => panic!("a readable stored document should be served"),
    }
    let r = plan_after_read(&c, Id::from_text("abc"), Some("nope".to_string()));
    assert!(matches!(r, Err(MetaError::JsonErr(_))));
}

#[test]
fn fetch_of_bad_url_fails() {
    let c = MetadataCache::new();
    assert!(matches!(get_metadata(&c, "https://example.com/watch?v=x"), Err(MetaError::NoIdFount)));
    assert!(matches!(get_metadata(&c, "::"), Err(MetaError::UrlParseErr(_))));
}

#[test]
fn ids_ending_in_json_survive_warm_up() {
    let d = sample_text();
    let mut other = SingleVideo::default();
    other.id = "other".to_string();
    let e = MetadataCache::encode_document(&YoutubeDlOutput::SingleVideo(Box::new(other))).unwrap();
    let a = Id::from_text("a");
    let a_json = Id::from_text("a.json");
    let files = vec![
        (MetadataCache::file_name(&a_json), d.clone()),
        (MetadataCache::file_name(&a), e.clone()),
    ];
    assert_eq!(files[0].0, "a.json.json");
    let mut c = MetadataCache::new();
    c.init_cache(&files).unwrap();
    assert_eq!(c.cached(&a_json), Some(Some(d)));
    assert_eq!(c.cached(&a), Some(Some(e)));
}
