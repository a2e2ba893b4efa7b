use cloudflare_dyndns::cloudflare_api::record::DNSRecordType;
use cloudflare_dyndns::config::{ApplicationConfig, RecordConfig, ZoneConfig};

const EXAMPLE: &str = r#"
public_ip_url = "https://example.ip"
cloudflare_token = "12345AB"

["example.nl"]
records = [{ type = "A", name = "www" }, { name = "mail" }, "test"]

["otherexample.com"]
records = [{ type = "A", name = "www" }, { name = "mail" }, "test"]
"#;

fn rule(value: &toml::Value) -> RecordConfig {
    match value {
        toml::Value::String(name) => RecordConfig::Name(name.clone()),
        other => {
            let table = other.as_table().unwrap();
            let record_type = match table.get("type") {
                Some(name) => DNSRecordType::from_str(name.as_str().unwrap()).unwrap(),
                None => DNSRecordType::default(),
            };
            RecordConfig::Full { record_type, name: table["name"].as_str().unwrap().to_owned() }
        }
    }
}

fn read(text: &str) -> ApplicationConfig {
    let table: toml::Table = text.parse().unwrap();
    let mut zones = Vec::new();
    for (key, value) in &table {
        if let Some(zone) = value.as_table() {
            let records = zone["records"].as_array().unwrap().iter().map(rule).collect();
            zones.push((key.clone(), ZoneConfig::new(records)));
        }
    }
    ApplicationConfig::new(
        table["public_ip_url"].as_str().unwrap().to_owned(),
        table["cloudflare_token"].as_str().unwrap().to_owned(),
        zones,
    )
}

fn get_default_config() -> ApplicationConfig {
    let records = || {
        ZoneConfig::new(vec![
            RecordConfig::Full { record_type: DNSRecordType::A, name: "www".to_owned() },
            RecordConfig::Full { record_type: DNSRecordType::A, name: "mail".to_owned() },
            RecordConfig::Name("test".to_owned()),
        ])
    };
    ApplicationConfig::new(
        "https://example.ip".to_owned(),
        "12345AB".to_owned(),
        vec![("example.nl".to_owned(), records()), ("otherexample.com".to_owned(), records())],
    )
}

#[test]
fn test_deserialize_default() {
    let config = read(EXAMPLE);

    assert_eq!(config, get_default_config());
    assert_eq!(config.validate(), Ok(()));
}
