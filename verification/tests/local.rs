use std::collections::BTreeMap;

use jute::backend::local::environment::{
    data_dir, data_search_paths, list_kernels, list_separator, runtime_dir, Candidate,
    Environment, KernelInterruptMode, KernelSpec, Platform,
};
use jute::backend::local::{
    connection_file_name, expand_argv, is_uuid_text, new_kernel_id, ConnectionDescriptor, Ports,
};
use jute::backend::notebook::MultilineString;
use jute::Error;

const KEY: &str = "0b8c9a34-12ab-4cde-8f01-23456789abcd";

fn ports() -> Ports {
    Ports { control: 50001, shell: 50002, iopub: 9, stdin: 65535, heartbeat: 0 }
}

fn unset() -> Environment {
    Environment {
        jupyter_path: None,
        jupyter_data_dir: None,
        jupyter_runtime_dir: None,
        xdg_data_home: None,
        home: None,
        app_data: None,
        program_data: None,
    }
}

#[test]
fn connection_file_text_is_exact() {
    let descriptor = ConnectionDescriptor::from_parts(ports(), KEY.to_string()).unwrap();
    assert_eq!(
        descriptor.to_json(),
        "{\"control_port\":50001,\"shell_port\":50002,\"iopub_port\":9,\"stdin_port\":65535,\
         \"hb_port\":0,\"transport\":\"tcp\",\"ip\":\"127.0.0.1\",\
         \"signature_scheme\":\"hmac-sha256\",\"key\":\"0b8c9a34-12ab-4cde-8f01-23456789abcd\"}"
    );
    assert_eq!(descriptor.get_ports(), ports());
    assert_eq!(descriptor.signing_key(), KEY);
    assert_eq!(descriptor.clone().to_json(), descriptor.to_json());
}

#[test]
fn connection_file_holds_exactly_the_nine_keys() {
    let descriptor = ConnectionDescriptor::generate(ports()).unwrap();
    let parsed: serde_json::Value = serde_json::from_str(&descriptor.to_json()).unwrap();
    let object = parsed.as_object().unwrap();
    let mut keys: Vec<&str> = object.keys().map(|k| k.as_str()).collect();
    keys.sort();
    assert_eq!(
        keys,
        vec![
            "control_port",
            "hb_port",
            "iopub_port",
            "ip",
            "key",
            "shell_port",
            "signature_scheme",
            "stdin_port",
            "transport"
        ]
    );
    assert_eq!(object["control_port"].as_u64(), Some(50001));
    assert_eq!(object["shell_port"].as_u64(), Some(50002));
    assert_eq!(object["iopub_port"].as_u64(), Some(9));
    assert_eq!(object["stdin_port"].as_u64(), Some(65535));
    assert_eq!(object["hb_port"].as_u64(), Some(0));
    assert_eq!(object["transport"].as_str(), Some("tcp"));
    assert_eq!(object["ip"].as_str(), Some("127.0.0.1"));
    assert_eq!(object["signature_scheme"].as_str(), Some("hmac-sha256"));
    assert_eq!(object["key"].as_str(), Some(descriptor.signing_key()));
    assert!(is_uuid_text(descriptor.signing_key()));
}

#[test]
fn generated_keys_differ() {
    let a = ConnectionDescriptor::generate(ports()).unwrap();
    let b = ConnectionDescriptor::generate(ports()).unwrap();
    assert_ne!(a.signing_key(), b.signing_key());
    assert_ne!(new_kernel_id(), new_kernel_id());
    assert!(is_uuid_text(&new_kernel_id()));
}

#[test]
fn keys_must_be_hyphenated_uuids() {
    assert!(is_uuid_text(KEY));
    for bad in [
        "",
        "0b8c9a3412ab4cde8f0123456789abcd",
        "0B8C9A34-12AB-4CDE-8F01-23456789ABCD",
        "0b8c9a34-12ab-4cde-8f01-23456789abc",
        "0b8c9a34-12ab-4cde-8f01-23456789abcde",
        "0b8c9a34_12ab-4cde-8f01-23456789abcd",
        "0b8c9a34-12ab-4cde-8f01-23456789abcg",
        "0b8c9a34-12ab-4cde-8f01-23456789ab\"d",
        "0b8c9a34-12ab-4cde-8f01-23456789abcé",
    ] {
        assert!(!is_uuid_text(bad), "{bad}");
        assert!(ConnectionDescriptor::from_parts(ports(), bad.to_string()).is_none(), "{bad}");
    }
}

#[test]
fn connection_file_lies_in_the_runtime_directory() {
    assert_eq!(
        connection_file_name("/home/u/.local/share/jupyter/runtime", KEY, Platform::Linux),
        "/home/u/.local/share/jupyter/runtime/jute-0b8c9a34-12ab-4cde-8f01-23456789abcd.json"
    );
    assert_eq!(connection_file_name("/r", "id", Platform::MacOs), "/r/jute-id.json");
    assert_eq!(connection_file_name("C:\\r", "id", Platform::Windows), "C:\\r\\jute-id.json");
}

#[test]
fn argv_is_expanded_with_the_connection_file() {
    let argv = vec![
        "python".to_string(),
        "-m".to_string(),
        "ipykernel_launcher".to_string(),
        "-f".to_string(),
        "{connection_file}".to_string(),
        "--log={connection_file}.log:{connection_file}".to_string(),
        "{connection file}".to_string(),
    ];
    assert_eq!(
        expand_argv(&argv, "/r/jute-1.json"),
        Ok(vec![
            "python".to_string(),
            "-m".to_string(),
            "ipykernel_launcher".to_string(),
            "-f".to_string(),
            "/r/jute-1.json".to_string(),
            "--log=/r/jute-1.json.log:/r/jute-1.json".to_string(),
            "{connection file}".to_string(),
        ])
    );
}

#[test]
fn a_spec_without_argv_cannot_be_started() {
    assert_eq!(
        expand_argv(&Vec::new(), "/r/jute-1.json"),
        Err(Error::KernelConnect("kernel spec has no argv".to_string()))
    );
}

#[test]
fn data_dir_by_platform() {
    let mut env = unset();
    env.home = Some("/home/u".to_string());
    env.app_data = Some("C:\\Users\\u\\AppData\\Roaming".to_string());
    assert_eq!(data_dir(Platform::Linux, &env), "/home/u/.local/share/jupyter");
    assert_eq!(data_dir(Platform::MacOs, &env), "/home/u/Library/Jupyter");
    assert_eq!(data_dir(Platform::Windows, &env), "C:\\Users\\u\\AppData\\Roaming\\jupyter");
    env.xdg_data_home = Some("/xdg".to_string());
    assert_eq!(data_dir(Platform::Linux, &env), "/xdg/jupyter");
    assert_eq!(data_dir(Platform::MacOs, &env), "/home/u/Library/Jupyter");
    env.jupyter_data_dir = Some("/data".to_string());
    assert_eq!(data_dir(Platform::Linux, &env), "/data");
    assert_eq!(data_dir(Platform::MacOs, &env), "/data");
    assert_eq!(data_dir(Platform::Windows, &env), "/data");
}

#[test]
fn runtime_dir_by_platform() {
    let mut env = unset();
    env.home = Some("/home/u".to_string());
    env.app_data = Some("C:\\A".to_string());
    assert_eq!(runtime_dir(Platform::Linux, &env), "/home/u/.local/share/jupyter/runtime");
    assert_eq!(runtime_dir(Platform::MacOs, &env), "/home/u/Library/Jupyter/runtime");
    assert_eq!(runtime_dir(Platform::Windows, &env), "C:\\A\\jupyter\\runtime");
    env.jupyter_data_dir = Some("/data".to_string());
    assert_eq!(runtime_dir(Platform::Linux, &env), "/data/runtime");
    let mut env = unset();
    env.jupyter_runtime_dir = Some("/run/jupyter".to_string());
    assert_eq!(runtime_dir(Platform::Linux, &env), "/run/jupyter");
    assert_eq!(runtime_dir(Platform::Windows, &env), "/run/jupyter");
}

#[test]
fn search_path_order() {
    let mut env = unset();
    env.home = Some("/home/u".to_string());
    assert_eq!(
        data_search_paths(Platform::Linux, &env, None),
        vec!["/home/u/.local/share/jupyter", "/usr/share/jupyter", "/usr/local/share/jupyter"]
    );
    env.jupyter_path = Some("/a:/b/c::/a".to_string());
    assert_eq!(
        data_search_paths(Platform::Linux, &env, Some("/opt/py")),
        vec![
            "/a",
            "/b/c",
            "",
            "/a",
            "/home/u/.local/share/jupyter",
            "/opt/py/share/jupyter",
            "/usr/share/jupyter",
            "/usr/local/share/jupyter"
        ]
    );
    assert_eq!(
        data_search_paths(Platform::MacOs, &env, None),
        vec![
            "/a",
            "/b/c",
            "",
            "/a",
            "/home/u/Library/Jupyter",
            "/usr/share/jupyter",
            "/usr/local/share/jupyter"
        ]
    );
}

#[test]
fn search_path_on_windows() {
    let mut env = unset();
    env.app_data = Some("C:\\A".to_string());
    env.program_data = Some("C:\\P".to_string());
    env.jupyter_path = Some("C:\\x;D:\\y:z".to_string());
    assert_eq!(
        data_search_paths(Platform::Windows, &env, Some("C:\\py")),
        vec!["C:\\x", "D:\\y:z", "C:\\A\\jupyter", "C:\\py/share/jupyter", "C:\\P\\jupyter"]
    );
    assert_eq!(list_separator(Platform::Windows), ';');
    assert_eq!(list_separator(Platform::Linux), ':');
    assert_eq!(list_separator(Platform::MacOs), ':');
}

#[test]
fn an_empty_jupyter_path_is_one_empty_entry() {
    let mut env = unset();
    env.jupyter_data_dir = Some("/d".to_string());
    env.jupyter_path = Some(String::new());
    assert_eq!(
        data_search_paths(Platform::Linux, &env, None),
        vec!["", "/d", "/usr/share/jupyter", "/usr/local/share/jupyter"]
    );
}

#[test]
fn interrupt_modes() {
    assert_eq!(KernelInterruptMode::default(), KernelInterruptMode::Signal);
    assert_eq!(KernelInterruptMode::from_wire_name("signal"), Some(KernelInterruptMode::Signal));
    assert_eq!(KernelInterruptMode::from_wire_name("message"), Some(KernelInterruptMode::Message));
    assert_eq!(KernelInterruptMode::from_wire_name("Signal"), None);
    assert_eq!(KernelInterruptMode::from_wire_name(""), None);
}

#[test]
fn multiline_strings_join_with_line_feeds() {
    assert_eq!(MultilineString::Single("a\nb".to_string()).into_string(), "a\nb");
    assert_eq!(MultilineString::Multi(Vec::new()).into_string(), "");
    assert_eq!(MultilineString::Multi(vec!["only".to_string()]).into_string(), "only");
    assert_eq!(
        MultilineString::Multi(vec!["a".to_string(), "".to_string(), "b\n".to_string()])
            .into_string(),
        "a\n\nb\n"
    );
    assert_eq!(
        String::from(MultilineString::Multi(vec!["x".to_string(), "y".to_string()])),
        "x\ny"
    );
}

fn spec(name: &str) -> KernelSpec {
    KernelSpec {
        argv: vec!["python".to_string(), "{connection_file}".to_string()],
        display_name: name.to_string(),
        language: "python".to_string(),
        interrupt_mode: KernelInterruptMode::Signal,
        env: BTreeMap::new(),
    }
}

fn candidate(path: &str, name: Option<&str>) -> Candidate {
    Candidate { path: path.to_string(), spec: name.map(spec) }
}

#[test]
fn kernels_are_listed_in_path_order_and_failures_skipped() {
    let found = vec![
        Some(vec![candidate("/a/kernels/x/kernel.json", Some("X"))]),
        None,
        Some(Vec::new()),
        Some(vec![
            candidate("/b/kernels/broken/kernel.json", None),
            candidate("/b/kernels/y/kernel.json", Some("Y")),
            candidate("/b/kernels/x/kernel.json", Some("X again")),
            candidate("/b/kernels/gone/kernel.json", None),
        ]),
        Some(vec![candidate("/c/kernels/z/kernel.json", Some("Z"))]),
    ];
    let kernels = list_kernels(found);
    let listed: Vec<(&str, &str)> =
        kernels.iter().map(|(path, spec)| (path.as_str(), spec.display_name.as_str())).collect();
    assert_eq!(
        listed,
        vec![
            ("/a/kernels/x/kernel.json", "X"),
            ("/b/kernels/y/kernel.json", "Y"),
            ("/b/kernels/x/kernel.json", "X again"),
            ("/c/kernels/z/kernel.json", "Z"),
        ]
    );
    assert!(list_kernels(Vec::new()).is_empty());
    assert!(list_kernels(vec![None, Some(vec![candidate("/p", None)])]).is_empty());
}

#[test]
fn the_five_ports_must_be_distinct() {
    assert!(ports().are_distinct());
    let fields: [fn(&mut Ports) -> &mut u16; 5] = [
        |p| &mut p.control,
        |p| &mut p.shell,
        |p| &mut p.iopub,
        |p| &mut p.stdin,
        |p| &mut p.heartbeat,
    ];
    for i in 0..5 {
        for j in 0..5 {
            if i == j {
                continue;
            }
            // Make port i the same as port j.
            let mut twice = ports();
            let value = *fields[j](&mut twice);
            *fields[i](&mut twice) = value;
            assert!(!twice.are_distinct(), "{i} {j}");
            assert!(ConnectionDescriptor::generate(twice).is_none());
            assert!(ConnectionDescriptor::from_parts(twice, KEY.to_string()).is_none());
        }
    }
    let descriptor = ConnectionDescriptor::from_parts(ports(), KEY.to_string()).unwrap();
    assert!(descriptor.get_ports().are_distinct());
}
