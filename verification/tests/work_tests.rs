use smcmanager::manifest::{ManifestContent, ManifestContentScripts};
use smcmanager::template::TemplateInfomation;
use smcmanager::work::WorkDirectory;

fn manifest() -> ManifestContent {
    ManifestContent {
        name: "tpl".to_string(),
        enable: None,
        scripts: ManifestContentScripts {
            health_check: "h".to_string(),
            pre_start: None,
            start: "s".to_string(),
            stop: None,
            post_stop: None,
        },
        vars: vec![],
    }
}

#[test]
fn work_directory_child_paths() {
    let w = WorkDirectory::new("/var/smc".to_string(), vec![], vec![]);
    assert_eq!(w.clone().data_directory(), "/var/smc/data");
    assert_eq!(w.clone().template_directory(), "/var/smc/templates");
    assert_eq!(w.service_directory(), "/var/smc/services");
}

#[test]
fn work_directory_hands_out_what_discovery_found() {
    let t = TemplateInfomation::new("/w/templates/redis/manifest.toml", manifest()).unwrap();
    let w = WorkDirectory::new("/w".to_string(), vec![t], vec![]);
    assert_eq!(w.clone().templates().len(), 1);
    assert_eq!(w.services().len(), 0);
}

#[test]
fn template_takes_name_and_path_from_the_manifest_file() {
    let t = TemplateInfomation::new("/w/templates/redis/manifest.toml", manifest()).unwrap();
    assert_eq!(t.name, "redis");
    assert_eq!(t.path, "/w/templates/redis");
    assert_eq!(t.template.name, "tpl");
}

#[test]
fn template_with_relative_path() {
    let t = TemplateInfomation::new("redis/manifest.toml", manifest()).unwrap();
    assert_eq!(t.name, "redis");
    assert_eq!(t.path, "redis");
}

#[test]
fn template_needs_a_directory() {
    assert!(TemplateInfomation::new("manifest.toml", manifest()).is_none());
}
