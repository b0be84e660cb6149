use miner_prover::hardware::HardwareProfile;
use miner_prover::json::{JsonNumber, JsonValue};
use miner_prover::json_source::read_json;
use miner_prover::lshw::find_nodes_by_class;

struct Machine {
    name: &'static str,
    report: &'static str,
    cpu_model: Option<&'static str>,
    cpu_cores: Option<i32>,
    ram_gb: Option<i32>,
    disk_gb: Option<i32>,
}

const XEON: &str = r#"{
  "id": "h100", "class": "system", "description": "Computer",
  "children": [
    { "id": "core", "class": "bus",
      "children": [
        { "id": "cpu", "class": "processor",
          "product": "Intel(R) Xeon(R) Platinum 8462Y+",
          "configuration": { "cores": "30", "enabledcores": "30", "threads": "1" } },
        { "id": "memory", "class": "memory", "description": "System Memory", "size": 128849018880,
          "children": [
            { "id": "bank:0", "class": "memory", "description": "DIMM RAM", "size": 17179869184 },
            { "id": "bank:1", "class": "memory", "description": "DIMM RAM", "size": 17179869184 }
          ] },
        { "id": "virtio1", "class": "disk", "description": "Virtual I/O device", "size": 268435456000 }
      ] }
  ]
}"#;

const EPYC: &str = r#"{
  "class": "system",
  "children": [
    { "class": "bus",
      "children": [
        { "class": "memory", "description": "BIOS", "size": 98304 },
        { "class": "processor", "product": "AMD EPYC 9554 64-Core Processor",
          "configuration": { "cores": "7" } },
        { "class": "processor", "product": "AMD EPYC 9554 64-Core Processor",
          "configuration": { "cores": "7" } },
        { "class": "memory", "description": "System Memory", "size": 193273528320 },
        { "class": "disk", "size": 107374182400 }
      ] }
  ]
}"#;

#[test]
fn reads_reports_of_whole_machines() {
    let machines = vec![
        Machine {
            name: "H100 SXM5 with 30 vCPUs",
            report: XEON,
            cpu_model: Some("Intel(R) Xeon(R) Platinum 8462Y+"),
            cpu_cores: Some(30),
            ram_gb: Some(120),
            disk_gb: Some(250),
        },
        Machine {
            name: "AMD EPYC 9554 with B200 GPU and 31 vCPUs",
            report: EPYC,
            cpu_model: Some("AMD EPYC 9554 64-Core Processor"),
            cpu_cores: Some(14),
            ram_gb: Some(180),
            disk_gb: Some(100),
        },
    ];
    for machine in machines {
        let profile = HardwareProfile::from_lshw_json(machine.report).unwrap();
        assert_eq!(profile.cpu_model.as_deref(), machine.cpu_model, "{}", machine.name);
        assert_eq!(profile.cpu_cores, machine.cpu_cores, "{}", machine.name);
        assert_eq!(profile.ram_gb, machine.ram_gb, "{}", machine.name);
        assert_eq!(profile.disk_gb, machine.disk_gb, "{}", machine.name);
        assert_eq!(profile.full_json, machine.report);
        let checked = HardwareProfile::checked_from_lshw_json(machine.report).unwrap().unwrap();
        assert_eq!(checked.ram_gb, machine.ram_gb);
    }
}

#[test]
fn reads_reports_by_parts() {
    let xeon = HardwareProfile::parse_lshw_output(XEON).unwrap();
    assert_eq!(xeon.cpu_cores, Some(30));
    assert_eq!(xeon.ram_gb, Some(120 + 16 + 16));
    assert_eq!(xeon.disk_gb, Some(250));
    let epyc = HardwareProfile::checked_parse_lshw_output(EPYC).unwrap().unwrap();
    assert_eq!(epyc.cpu_model.as_deref(), Some("AMD EPYC 9554 64-Core Processor"));
    assert_eq!(epyc.cpu_cores, Some(7));
    assert_eq!(epyc.ram_gb, Some(180));
    assert_eq!(epyc.disk_gb, Some(100));
    assert_eq!(epyc.full_json, EPYC);
}

#[test]
fn empty_report_gives_empty_profile() {
    for text in ["{}", "[]", "null", "17", "\"processor\"", "{\"children\": 3}"] {
        let whole = HardwareProfile::from_lshw_json(text).unwrap();
        let parts = HardwareProfile::parse_lshw_output(text).unwrap();
        for profile in [whole, parts] {
            assert_eq!(profile.cpu_model, None);
            assert_eq!(profile.cpu_cores, None);
            assert_eq!(profile.ram_gb, None);
            assert_eq!(profile.disk_gb, None);
            assert_eq!(profile.full_json, text);
        }
    }
}

#[test]
fn unreadable_report_says_why() {
    let error = HardwareProfile::from_lshw_json("{").unwrap_err();
    assert_eq!(
        error.message,
        "Failed to parse lshw JSON: EOF while parsing an object at line 1 column 1"
    );
    let error = HardwareProfile::parse_lshw_output("not json").unwrap_err();
    assert_eq!(error.message, "Failed to parse lshw JSON: expected ident at line 1 column 2");
    let error = HardwareProfile::checked_from_lshw_json("").unwrap().unwrap_err();
    assert!(error.message.starts_with("Failed to parse lshw JSON: EOF"));
}

#[test]
fn odd_figures_are_skipped() {
    let text = r#"{ "class": "system", "children": [
        { "class": "processor", "product": 5, "configuration": { "cores": "eight" } },
        { "class": "processor", "product": "second", "configuration": { "cores": 8 } },
        { "class": "processor", "configuration": { "cores": "+3" } },
        { "class": "processor", "configuration": { "cores": "-1" } },
        { "class": "memory", "description": "System Memory" },
        { "class": "memory", "description": "System Memory", "size": "12" },
        { "class": "memory", "description": "System Memory", "size": 2147483648 },
        { "class": "memory", "description": "System Memory", "size": 9663676416 },
        { "class": "disk", "size": 1.5e12 },
        { "class": "disk", "size": 3221225471 },
        { "class": "disk" }
    ] }"#;
    let profile = HardwareProfile::from_lshw_json(text).unwrap();
    assert_eq!(profile.cpu_model, None);
    assert_eq!(profile.cpu_cores, Some(2));
    assert_eq!(profile.ram_gb, Some(2));
    assert_eq!(profile.disk_gb, Some(2));
    let parts = HardwareProfile::parse_lshw_output(text).unwrap();
    assert_eq!(parts.cpu_cores, None);
    assert_eq!(parts.ram_gb, Some(11));
}

#[test]
fn gigabytes_wrap_around() {
    let report = |size: &str| format!("{{\"class\":\"disk\",\"size\":{}}}", size);
    let disk = |size: &str| HardwareProfile::from_lshw_json(&report(size)).unwrap().disk_gb;
    assert_eq!(disk("1"), Some(0));
    assert_eq!(disk("0"), None);
    assert_eq!(disk("-5"), None);
    assert_eq!(disk("1073741823"), Some(0));
    assert_eq!(disk("1073741824"), Some(1));
    for bytes in [2305843009213693951i64, 2305843009213693952, 4611686018427387904, i64::MAX] {
        assert_eq!(disk(&bytes.to_string()), Some((bytes / (1024 * 1024 * 1024)) as i32));
    }
}

#[test]
fn totals_that_leave_their_types_are_refused() {
    let disks = r#"[ ]"#;
    assert!(HardwareProfile::checked_from_lshw_json(disks).is_some());
    let large = r#"{ "children": [
        { "class": "disk", "size": 9223372036854775807 },
        { "class": "disk", "size": 1 },
        { "class": "disk", "size": -1 }
    ] }"#;
    assert!(HardwareProfile::checked_from_lshw_json(large).is_none());
    assert!(HardwareProfile::checked_parse_lshw_output(large).is_none());
    let cores = r#"{ "children": [
        { "class": "processor", "configuration": { "cores": "2147483647" } },
        { "class": "processor", "configuration": { "cores": "1" } }
    ] }"#;
    assert!(HardwareProfile::checked_from_lshw_json(cores).is_none());
    assert_eq!(
        HardwareProfile::checked_parse_lshw_output(cores).unwrap().unwrap().cpu_cores,
        Some(2147483647)
    );
    let memory = r#"{ "children": [
        { "class": "memory", "size": 9223372036854775807 },
        { "class": "memory", "size": 9223372036854775807 }
    ] }"#;
    assert!(HardwareProfile::checked_parse_lshw_output(memory).is_none());
    assert_eq!(HardwareProfile::checked_from_lshw_json(memory).unwrap().unwrap().ram_gb, None);
}

#[test]
fn profile_in_words() {
    let profile = HardwareProfile::from_lshw_json(XEON).unwrap();
    assert_eq!(profile.cpu_info(), "Intel(R) Xeon(R) Platinum 8462Y+ (30 cores)");
    assert_eq!(profile.mem_info(), "120GB RAM, 250GB Disk");
    let nothing = HardwareProfile::from_lshw_json("{}").unwrap();
    assert_eq!(nothing.cpu_info(), "Unknown CPU (0 cores)");
    assert_eq!(nothing.mem_info(), "0GB RAM, 0GB Disk");
    let odd = HardwareProfile {
        cpu_model: Some("x".to_string()),
        cpu_cores: Some(i32::MIN),
        ram_gb: Some(-1),
        disk_gb: Some(i32::MAX),
        full_json: String::new(),
    };
    assert_eq!(odd.cpu_info(), "x (-2147483648 cores)");
    assert_eq!(odd.mem_info(), "-1GB RAM, 2147483647GB Disk");
}

#[test]
fn search_finds_each_before_what_lies_below() {
    let text = r#"{ "class": "disk", "id": "a", "children": [
        { "class": "disk", "id": "b", "children": [ { "class": "disk", "id": "c" } ] },
        { "class": "other", "id": "d", "children": [ { "class": "disk", "id": "e" }, 7 ] },
        { "class": ["disk"], "id": "f" },
        { "id": "g", "other": { "class": "disk" } }
    ] }"#;
    let tree = read_json(text).unwrap();
    let mut found = Vec::new();
    find_nodes_by_class(&tree, "disk", &mut found);
    let ids: Vec<&str> = found.iter().map(|n| n.get("id").unwrap().as_str().unwrap()).collect();
    assert_eq!(ids, vec!["a", "b", "c", "e"]);
    find_nodes_by_class(&tree, "other", &mut found);
    assert_eq!(found.len(), 5);
    let mut none = Vec::new();
    find_nodes_by_class(&tree, "processor", &mut none);
    assert!(none.is_empty());
}

#[test]
fn documents_are_copied_as_they_are() {
    let text = r#"{ "n": null, "t": true, "u": 18446744073709551615, "i": -7, "f": 0.5,
        "s": "café", "a": [1, [], {}], "z": -0.0 }"#;
    let tree = read_json(text).unwrap();
    assert!(matches!(tree.get("n"), Some(JsonValue::Null)));
    assert_eq!(tree.get("t").unwrap().as_bool(), Some(true));
    let u = tree.get("u").unwrap();
    assert_eq!(u.as_number(), Some(JsonNumber::Unsigned(u64::MAX)));
    assert_eq!(u.as_u64(), Some(u64::MAX));
    assert_eq!(u.as_i64(), None);
    let i = tree.get("i").unwrap();
    assert_eq!(i.as_number(), Some(JsonNumber::Negative(-7)));
    assert_eq!(i.as_i64(), Some(-7));
    assert_eq!(i.as_u64(), None);
    let f = tree.get("f").unwrap();
    assert_eq!(f.as_number(), Some(JsonNumber::Binary64(0.5f64.to_bits())));
    assert_eq!(f.as_i64(), None);
    assert_eq!(tree.get("z").unwrap().as_number(), Some(JsonNumber::Binary64((-0.0f64).to_bits())));
    assert_eq!(tree.get("s").unwrap().as_str(), Some("caf\u{e9}"));
    let a = tree.get("a").unwrap().as_array().unwrap();
    assert_eq!(a.len(), 3);
    assert_eq!(a[0].as_i64(), Some(1));
    assert_eq!(a[1].as_array().unwrap().len(), 0);
    assert!(a[2].get("n").is_none());
    assert!(tree.get("missing").is_none());
    assert!(a[0].get("n").is_none());
    assert!(tree.as_array().is_none() && tree.as_str().is_none() && tree.as_bool().is_none());
    assert_eq!(read_json(r#"{"k": 1, "k": 2}"#).unwrap().get("k").unwrap().as_i64(), Some(2));
    let value: serde_json::Value = serde_json::from_str(text).unwrap();
    let copy = JsonValue::from_serde(&value);
    assert_eq!(copy.get("i").unwrap().as_i64(), Some(-7));
}

#[test]
fn banks_change_the_parts_but_not_the_whole() {
    let plain = r#"{ "children": [
        { "class": "processor", "configuration": { "cores": "4" } },
        { "class": "memory", "description": "System Memory", "size": 4294967296 }
    ] }"#;
    let banked = r#"{ "children": [
        { "class": "memory", "description": "DIMM", "size": 1073741824 },
        { "class": "memory", "description": "System Memory", "size": 4294967296, "children": [
            { "class": "memory", "size": 2147483648 }
        ] }
    ] }"#;
    let whole = HardwareProfile::from_lshw_json(plain).unwrap();
    let parts = HardwareProfile::parse_lshw_output(plain).unwrap();
    assert_eq!((whole.cpu_cores, whole.ram_gb), (Some(4), Some(4)));
    assert_eq!((parts.cpu_cores, parts.ram_gb), (Some(4), Some(4)));
    assert_eq!(HardwareProfile::from_lshw_json(banked).unwrap().ram_gb, Some(4));
    assert_eq!(HardwareProfile::parse_lshw_output(banked).unwrap().ram_gb, Some(7));
}

#[test]
fn bank_at_any_place_changes_no_figure_of_the_whole() {
    let report = |places: [&str; 4]| {
        format!(
            r#"{{ "class": "system", "children": [ {}
                {{ "class": "processor", "product": "A", "configuration": {{ "cores": "4" }},
                   "children": [ {} {{ "class": "other" }} ] }},
                {{ "class": "memory", "description": "System Memory", "size": 4294967296,
                   "children": [ {} {{ "class": "memory", "size": 1073741824 }} ] }},
                {{ "class": "disk", "size": 2147483648, "children": [ {} {{ }} ] }}
            ] }}"#,
            places[0], places[1], places[2], places[3]
        )
    };
    let bank = r#"{ "class": "memory", "description": "DIMM", "size": 3221225472 },"#;
    for place in 0..4 {
        let mut places = [""; 4];
        places[place] = bank;
        let text = report(places);
        let whole = HardwareProfile::from_lshw_json(&text).unwrap();
        assert_eq!(whole.cpu_model.as_deref(), Some("A"));
        assert_eq!((whole.cpu_cores, whole.ram_gb, whole.disk_gb), (Some(4), Some(4), Some(2)));
        let parts = HardwareProfile::parse_lshw_output(&text).unwrap();
        assert_eq!((parts.cpu_cores, parts.ram_gb, parts.disk_gb), (Some(4), Some(8), Some(2)));
    }
}
