use mimo::models::Subscription;
use mimo::profile_meta::{self, MetaFile, ProfileMeta};
use mimo::profiles::{profile_file_name, ProfileFile, ProfileIndex, ProfileManager};

fn file(name: &str, nodes: usize) -> ProfileFile {
    ProfileFile { file_name: name.to_string(), path: format!("/p/{}", name), parsed_nodes: nodes }
}

#[test]
fn paths() {
    assert_eq!(ProfileManager::config_dir("/home/u"), "/home/u/.config/mimo");
    assert_eq!(ProfileManager::profiles_dir("/c"), "/c/profiles");
    assert_eq!(ProfileManager::index_file_path("/c"), "/c/index.json");
    assert_eq!(profile_file_name("a/b c:d"), "a_b_c_d.yaml");
}

#[test]
fn download_records_and_activates() {
    let mut idx = ProfileIndex::default();
    ProfileManager::record_download(&mut idx, "my sub", "http://u", "/p/my_sub.yaml", 100, 3);
    assert_eq!(idx.active_profile.as_deref(), Some("my sub"));
    assert_eq!(idx.subscriptions.len(), 1);
    assert_eq!(idx.subscriptions[0].id, "my_sub");
    assert_eq!(idx.subscriptions[0].created_time, 100);
    ProfileManager::record_download(&mut idx, "other", "http://o", "/p/other.yaml", 200, 1);
    assert_eq!(idx.active_profile.as_deref(), Some("my sub"));
    ProfileManager::record_download(&mut idx, "my sub", "http://u2", "/p/my_sub.yaml", 300, 7);
    assert_eq!(idx.subscriptions.len(), 2);
    assert_eq!(idx.subscriptions[0].url, "http://u2");
    assert_eq!(idx.subscriptions[0].updated_time, 300);
    assert_eq!(idx.subscriptions[0].created_time, 100);
    assert_eq!(idx.subscriptions[0].node_count, 7);
}

#[test]
fn removal_moves_the_active_profile() {
    let mut idx = ProfileIndex::default();
    ProfileManager::record_download(&mut idx, "a", "u", "f", 1, 1);
    ProfileManager::record_download(&mut idx, "b", "u", "f", 1, 1);
    ProfileManager::remove_profile(&mut idx, "a");
    assert_eq!(idx.subscriptions.len(), 1);
    assert_eq!(idx.active_profile.as_deref(), Some("b"));
    ProfileManager::remove_profile(&mut idx, "b");
    assert_eq!(idx.active_profile, None);
    ProfileManager::set_active_profile(&mut idx, "z");
    assert_eq!(idx.active_profile.as_deref(), Some("z"));
}

#[test]
fn listing_is_sorted_and_filtered() {
    let mut idx = ProfileIndex::default();
    idx.subscriptions.push(Subscription {
        id: "beta".to_string(),
        name: "beta".to_string(),
        url: "http://b".to_string(),
        file_path: "/p/beta.yaml".to_string(),
        created_time: 5,
        updated_time: 6,
        node_count: 9,
    });
    idx.active_profile = Some("alpha".to_string());
    let files = vec![file("beta.yaml", 0), file("notes.txt", 0), file("alpha.yaml", 4), file(".yaml", 0)];
    let list = ProfileManager::list_profiles(&idx, &files);
    assert_eq!(list.len(), 2);
    assert_eq!(list[0].name, "alpha");
    assert!(list[0].is_active);
    assert_eq!(list[0].node_count, 4);
    assert_eq!(list[0].url, None);
    assert_eq!(list[1].name, "beta");
    assert_eq!(list[1].url.as_deref(), Some("http://b"));
    assert_eq!(list[1].updated_at, Some(6));
    assert_eq!(list[1].node_count, 9);
}

#[test]
fn meta_index_bookkeeping() {
    assert_eq!(profile_meta::ProfileManager::meta_file_path("/c/mimo/profiles"), "/c/mimo/profiles/index.json");
    assert_eq!(profile_meta::ProfileManager::profiles_dir("/c"), "/c/mimo/profiles");
    assert!(profile_meta::ProfileManager::check_profile_content("rules:\n").is_ok());
    assert!(profile_meta::ProfileManager::check_profile_content("<html>").is_err());
    let mut meta = ProfileMeta::default();
    profile_meta::ProfileManager::record_download(&mut meta, "a", "http://a", "/a.yaml", Some(5));
    profile_meta::ProfileManager::record_download(&mut meta, "b", "http://b", "/b.yaml", None);
    profile_meta::ProfileManager::set_active_profile(&mut meta, "b");
    assert!(!meta.profiles[0].is_active);
    assert!(meta.profiles[1].is_active);
    profile_meta::ProfileManager::delete_profile(&mut meta, "b");
    assert_eq!(meta.profiles.len(), 1);
    assert_eq!(meta.active_profile, None);
    let files = vec![
        MetaFile { file_name: "z.yml".to_string(), path: "/z.yml".to_string(), modified: Some(9) },
        MetaFile { file_name: "a.yaml".to_string(), path: "/a.yaml".to_string(), modified: None },
    ];
    let list = profile_meta::ProfileManager::list_profiles(&meta, &files);
    assert_eq!(list.len(), 2);
    assert_eq!(list[0].name, "a");
    assert_eq!(list[0].url.as_deref(), Some("http://a"));
    assert_eq!(list[1].name, "z");
    assert_eq!(list[1].updated_at, Some(9));
}
