use torrent_client::torrent::{TorrentInfo, TorrentState, TorrentUpload, TorrentUploadBuilder};

#[test]
fn builder_starts_blank() {
    let upload = TorrentUpload::builder().build();
    assert!(upload.urls.is_empty());
    assert!(upload.torrents.is_empty());
    assert_eq!(upload.tags, None);
    assert_eq!(upload.category, None);
    assert_eq!(upload.paused, None);
}

#[test]
fn default_builder_and_default_upload_are_blank() {
    let built = TorrentUploadBuilder::default().build();
    assert_eq!(built, TorrentUpload::default());
    assert!(TorrentUpload::default().urls.is_empty());
    assert_eq!(TorrentUpload::default().tags, None);
}

#[test]
fn two_urls_and_one_file_are_kept_in_order() {
    let bytes: Vec<u8> = vec![0x64, 0x38, 0x3a, 0x00, 0xff];
    let upload = TorrentUpload::builder()
        .url("https://example.org/a.torrent")
        .url("magnet:?xt=urn:btih:0123456789abcdef")
        .torrent_data("ubuntu.torrent".to_string(), bytes.clone())
        .build();
    assert_eq!(upload.urls.len(), 2);
    assert_eq!(upload.urls[0], "https://example.org/a.torrent");
    assert_eq!(upload.urls[1], "magnet:?xt=urn:btih:0123456789abcdef");
    assert_eq!(upload.torrents.len(), 1);
    assert_eq!(upload.torrents[0].0, "ubuntu.torrent");
    assert_eq!(upload.torrents[0].1, bytes);
    assert_eq!(upload.tags, None);
    assert_eq!(upload.category, None);
    assert_eq!(upload.paused, None);
}

#[test]
fn files_alone_and_urls_alone_are_both_uploads() {
    let only_files = TorrentUpload::builder()
        .torrent_data("a.torrent".to_string(), vec![1, 2, 3])
        .torrent_data("b.torrent".to_string(), Vec::new())
        .build();
    assert!(only_files.urls.is_empty());
    assert_eq!(
        only_files.torrents,
        vec![
            ("a.torrent".to_string(), vec![1u8, 2, 3]),
            ("b.torrent".to_string(), Vec::new()),
        ]
    );
    let only_urls = TorrentUpload::builder().url("http://t/1").build();
    assert_eq!(only_urls.urls, vec!["http://t/1".to_string()]);
    assert!(only_urls.torrents.is_empty());
}

#[test]
fn tag_on_a_fresh_builder_starts_the_list() {
    let upload = TorrentUpload::builder().tag("linux".to_string()).build();
    assert_eq!(upload.tags, Some(vec!["linux".to_string()]));
}

#[test]
fn tag_appends_to_the_list_that_is_there() {
    let upload = TorrentUpload::builder()
        .tags(vec!["iso".to_string()])
        .tag("linux".to_string())
        .tag("lts".to_string())
        .build();
    assert_eq!(
        upload.tags,
        Some(vec!["iso".to_string(), "linux".to_string(), "lts".to_string()])
    );
}

#[test]
fn tag_after_an_empty_list_gives_a_list_of_one() {
    let upload = TorrentUpload::builder().tags(Vec::new()).tag("x".to_string()).build();
    assert_eq!(upload.tags, Some(vec!["x".to_string()]));
}

#[test]
fn tags_replaces_what_was_gathered() {
    let upload = TorrentUpload::builder()
        .tag("old".to_string())
        .tags(vec!["new".to_string(), "newer".to_string()])
        .build();
    assert_eq!(upload.tags, Some(vec!["new".to_string(), "newer".to_string()]));
}

#[test]
fn category_and_paused_are_set_and_nothing_else() {
    let upload = TorrentUpload::builder().category("films".to_string()).paused().build();
    assert_eq!(upload.category, Some("films".to_string()));
    assert_eq!(upload.paused, Some(true));
    assert!(upload.urls.is_empty());
    assert!(upload.torrents.is_empty());
    assert_eq!(upload.tags, None);
}

#[test]
fn category_set_twice_keeps_the_last() {
    let upload = TorrentUpload::builder()
        .category("a".to_string())
        .category("b".to_string())
        .build();
    assert_eq!(upload.category, Some("b".to_string()));
}

#[test]
fn build_leaves_the_builder_as_it_was() {
    let mut builder = TorrentUpload::builder();
    builder.url("http://t/1");
    let first = builder.build();
    let again = builder.build();
    assert_eq!(first, again);
    builder.url("http://t/2");
    let second = builder.build();
    assert_eq!(first.urls, vec!["http://t/1".to_string()]);
    assert_eq!(second.urls, vec!["http://t/1".to_string(), "http://t/2".to_string()]);
}

#[test]
fn upload_clone_keeps_every_field() {
    let upload = TorrentUpload::builder()
        .url("http://t/1")
        .torrent_data("a.torrent".to_string(), vec![9, 8, 7])
        .tag("t".to_string())
        .category("c".to_string())
        .paused()
        .build();
    let copy = upload.clone();
    assert_eq!(copy, upload);
    assert_eq!(copy.torrents[0].1, vec![9u8, 8, 7]);
}

#[test]
fn from_hash_sets_the_hash_alone() {
    let info = TorrentInfo::from_hash("c12fe1c06bba254a9dc9f519b335aa7c1367a88a".to_string());
    assert_eq!(info.hash, "c12fe1c06bba254a9dc9f519b335aa7c1367a88a");
    assert_eq!(info.name, "");
    assert_eq!(info.category, "");
    assert!(info.trackers.is_empty());
    assert!(info.tags.is_empty());
    assert_eq!(info.state, TorrentState::Unknown);
}

#[test]
fn default_torrent_is_blank_and_unknown() {
    let info = TorrentInfo::default();
    assert_eq!(info, TorrentInfo::from_hash(String::new()));
    assert_eq!(TorrentState::default(), TorrentState::Unknown);
}

#[test]
fn torrent_clone_keeps_every_field() {
    let info = TorrentInfo {
        name: "debian".to_string(),
        trackers: vec!["udp://a".to_string(), "udp://b".to_string()],
        category: "os".to_string(),
        tags: vec!["iso".to_string()],
        hash: "abc".to_string(),
        state: TorrentState::QueuedDownloading,
    };
    assert_eq!(info.clone(), info);
}
