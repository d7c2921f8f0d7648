use openstack_tui::config::clouds::{
    default_domain, default_identity_version, default_interface, default_project, default_region,
    region_from_field, resolve_clouds_path, AuthConfig, CloudConfig, CloudsFile, ConfigError, RegionField,
};
use openstack_tui::strmap::StrMap;

const SAMPLE: &str = r#"
clouds:
  admin:
    auth:
      auth_url: https://keystone.example.com:5000
      username: admin
      password: s3cr3t
      project_name: admin
      user_domain_name: Default
      project_domain_name: Default
    region_name: RegionOne
    interface: internal
    identity_api_version: 3
"#;

const SAMPLE_REGIONS_LIST: &str = r#"
clouds:
  openstack:
    auth:
      auth_url: http://10.180.9.50:5000
      username: admin
      password: secret
      project_name: admin
      user_domain_name: Default
    regions:
    - RegionOne
    - RegionTwo
    interface: public
    identity_api_version: 3
"#;

fn text(v: &serde_yaml::Value, key: &str) -> Option<String> {
    v.get(key).and_then(|x| x.as_str()).map(|s| s.to_string())
}

/// Reads a clouds.yaml document into the library's model, with the
/// library's defaults and region rule. The program parses the file with
/// serde derives on its own copies of these types, which a test of the
/// library cannot reach; this reader walks serde_yaml's value tree instead,
/// so what these tests check is the library's part: defaults, the region
/// rule and the lookup by cloud name.
fn parse_clouds(doc: &str) -> CloudsFile {
    let root: serde_yaml::Value = serde_yaml::from_str(doc).unwrap();
    let mut clouds = StrMap::new();
    for (name, entry) in root.get("clouds").unwrap().as_mapping().unwrap() {
        let auth = entry.get("auth").unwrap();
        let region_field = if let Some(r) = entry.get("region_name").and_then(|r| r.as_str()) {
            Some(RegionField::Single(r.to_string()))
        } else if let Some(list) = entry.get("regions").and_then(|r| r.as_sequence()) {
            Some(RegionField::List(list.iter().map(|r| r.as_str().unwrap().to_string()).collect()))
        } else {
            None
        };
        let config = CloudConfig {
            auth: AuthConfig {
                auth_url: text(auth, "auth_url").unwrap(),
                username: text(auth, "username").unwrap(),
                password: text(auth, "password").unwrap(),
                project_name: text(auth, "project_name").unwrap_or_else(default_project),
                project_id: text(auth, "project_id"),
                user_domain_name: text(auth, "user_domain_name").unwrap_or_else(default_domain),
                project_domain_name: text(auth, "project_domain_name").unwrap_or_else(default_domain),
            },
            region_name: match region_field {
                Some(f) => region_from_field(f),
                None => default_region(),
            },
            interface: text(entry, "interface").unwrap_or_else(default_interface),
            identity_api_version: entry
                .get("identity_api_version")
                .and_then(|v| v.as_u64())
                .map(|v| v as u8)
                .unwrap_or_else(default_identity_version),
            verify: entry.get("verify").and_then(|v| v.as_bool()),
            cacert: text(entry, "cacert"),
        };
        clouds.insert(name.as_str().unwrap().to_string(), config);
    }
    CloudsFile { clouds }
}

#[test]
fn test_parse_sample() {
    let cf = parse_clouds(SAMPLE);
    let cloud = cf.get("admin").unwrap();
    assert_eq!(cloud.auth.username, "admin");
    assert_eq!(cloud.region_name, "RegionOne");
    assert_eq!(cloud.interface, "internal");
}

#[test]
fn test_parse_regions_list() {
    let cf = parse_clouds(SAMPLE_REGIONS_LIST);
    let cloud = cf.get("openstack").unwrap();
    // Should take the first element of the list
    assert_eq!(cloud.region_name, "RegionOne");
    assert_eq!(cloud.interface, "public");
}

#[test]
fn parse_regions_list_keeps_defaults() {
    let cf = parse_clouds(SAMPLE_REGIONS_LIST);
    let cloud = cf.get("openstack").unwrap();
    assert_eq!(cloud.auth.project_domain_name, "Default");
    assert_eq!(cloud.identity_api_version, 3);
    assert!(cf.get("admin").is_none());
}

#[test]
fn region_field_rules() {
    assert_eq!(region_from_field(RegionField::Single("RegionTwo".to_string())), "RegionTwo");
    assert_eq!(
        region_from_field(RegionField::List(vec!["B".to_string(), "A".to_string()])),
        "B"
    );
    assert_eq!(region_from_field(RegionField::List(vec![])), "RegionOne");
}

#[test]
fn defaults_are_documented_values() {
    assert_eq!(default_region(), "RegionOne");
    assert_eq!(default_interface(), "public");
    assert_eq!(default_identity_version(), 3);
    assert_eq!(default_domain(), "Default");
    assert_eq!(default_project(), "admin");
}

#[test]
fn resolution_order_of_clouds_yaml() {
    let user = Some("/home/u/.config/openstack/clouds.yaml".to_string());
    assert_eq!(
        resolve_clouds_path(Some("/x/c.yaml"), Some("/env.yaml".to_string()), user.clone(), true, true).unwrap(),
        "/x/c.yaml"
    );
    assert_eq!(
        resolve_clouds_path(None, Some("/env.yaml".to_string()), user.clone(), true, true).unwrap(),
        "/env.yaml"
    );
    assert_eq!(
        resolve_clouds_path(None, None, user.clone(), true, true).unwrap(),
        "/home/u/.config/openstack/clouds.yaml"
    );
    assert_eq!(
        resolve_clouds_path(None, None, user.clone(), false, true).unwrap(),
        "/etc/openstack/clouds.yaml"
    );
    assert_eq!(resolve_clouds_path(None, None, None, false, false).unwrap_err(), ConfigError::NotFound);
    assert!(ConfigError::NotFound.message().starts_with("clouds.yaml not found"));
}

#[test]
fn cloud_lookup_message() {
    assert_eq!(
        openstack_tui::config::clouds::cloud_not_found_message("prod"),
        "Cloud 'prod' not found in clouds.yaml"
    );
}
