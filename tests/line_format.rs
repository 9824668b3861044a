use mt_samples::record::convert_to_header;
use serde_json::Value;

const FIELDS: [&str; 6] = ["specialty", "name", "description", "text", "keywords", "url"];

#[test]
fn record_line_round_trip() {
    let mut h = convert_to_header(
        ["L0", "Allergy \"A\"", "L2", "Name\nwith break", "L4", "Desc \\ slash"]
            .iter()
            .map(|s| s.to_string())
            .collect(),
    )
    .unwrap();
    h.text = "Body / with\ttab".to_string();
    h.keywords = "k1, k2".to_string();
    h.url = "https://mtsamples.com/site/pages/sample.asp?Type=X&Sample=1".to_string();
    let values = [&h.specialty, &h.name, &h.description, &h.text, &h.keywords, &h.url];

    let mut object = serde_json::Map::new();
    for (k, v) in FIELDS.iter().zip(values.iter()) {
        object.insert(k.to_string(), Value::String(v.to_string()));
    }
    let line = serde_json::to_string(&Value::Object(object)).unwrap();
    assert!(!line.contains('\n'));

    let back: Value = serde_json::from_str(&line).unwrap();
    for (k, v) in FIELDS.iter().zip(values.iter()) {
        assert_eq!(back[*k].as_str().unwrap(), v.as_str());
    }
}
