use bunny_storage::BunnyBackend;
use bunny_storage::BunnyStorageConfig;
use bunny_storage::Download;
use bunny_storage::DownloadStep;
use bunny_storage::Header;

fn config(bucket: &str, api: &str, cdn: &str, key: &str) -> BunnyStorageConfig {
    BunnyStorageConfig::new(bucket.to_string(), api.to_string(), cdn.to_string(), key.to_string())
}

#[test]
fn configuration_keeps_its_values() {
    let config = config("zone-1", "https://storage.example", "https://cdn.example", "s3cr3t");
    assert_eq!(config.bucket(), "zone-1");
    assert_eq!(config.api_endpoint(), "https://storage.example");
    assert_eq!(config.cdn_endpoint(), "https://cdn.example");
    assert_eq!(config.access_key(), "s3cr3t");
}

#[test]
fn backend_keeps_its_configuration() {
    let backend = match BunnyBackend::new(config("zone-1", "https://storage.example", "https://cdn.example", "s3cr3t")) {
        Ok(backend) => backend,
        Err(error) => panic!("a backend is always made: {:?}", error),
    };
    assert_eq!(backend.config().bucket(), "zone-1");
    assert_eq!(backend.config().api_endpoint(), "https://storage.example");
    assert_eq!(backend.config().cdn_endpoint(), "https://cdn.example");
    assert_eq!(backend.config().access_key(), "s3cr3t");
    let _ = backend.delete_file("x");
    let _ = backend.download_file("x", true);
    assert_eq!(backend.config().bucket(), "zone-1");
    assert_eq!(backend.config().access_key(), "s3cr3t");
}

#[test]
fn storage_url_joins_endpoint_bucket_and_name() {
    let config = config("zone-1", "https://storage.example", "https://cdn.example", "s3cr3t");
    assert_eq!(config.storage_url("a.txt"), "https://storage.example/zone-1/a.txt");
}

#[test]
fn cdn_url_joins_endpoint_and_name() {
    let config = config("zone-1", "https://storage.example", "https://cdn.example", "s3cr3t");
    assert_eq!(config.cdn_url("a.txt"), "https://cdn.example/a.txt");
}

#[test]
fn names_are_inserted_verbatim() {
    let config = config("b", "http://h", "http://c", "K");
    for name in ["dir/sub/file", "with space", "q?x=1", "frag#ment", "100%", "\u{00e9}t\u{00e9}.txt", "\u{1f407}", "", "/", ".."] {
        assert_eq!(config.storage_url(name), format!("http://h/b/{}", name));
        assert_eq!(config.cdn_url(name), format!("http://c/{}", name));
    }
}

#[test]
fn slashes_are_neither_added_nor_removed() {
    let config = config("b/", "http://h/", "http://c/", "K");
    assert_eq!(config.storage_url("/a.txt"), "http://h//b///a.txt");
    assert_eq!(config.cdn_url("/a.txt"), "http://c///a.txt");
}

#[test]
fn empty_configuration_gives_bare_slashes() {
    let config = config("", "", "", "");
    assert_eq!(config.storage_url(""), "//");
    assert_eq!(config.cdn_url(""), "/");
}

#[test]
fn access_key_header_holds_the_key_verbatim() {
    let config = config("b", "http://h", "http://c", "key with space: \u{00fc}");
    let header = config.access_key_header();
    assert!(header == Header { name: "AccessKey".to_string(), value: "key with space: \u{00fc}".to_string() });
}

#[test]
fn download_url_is_the_cdn_url() {
    let config = config("zone-1", "https://storage.example", "https://cdn.example", "s3cr3t");
    let expected = config.cdn_url("nar/abc.nar");
    let backend = match BunnyBackend::new(config) {
        Ok(backend) => backend,
        Err(error) => panic!("a backend is always made: {:?}", error),
    };
    assert!(backend.download_file("nar/abc.nar", false) == DownloadStep::Done(Download::Url(expected)));
    assert!(
        backend.download_file("nar/abc.nar", false)
            == DownloadStep::Done(Download::Url("https://cdn.example/nar/abc.nar".to_string()))
    );
}
