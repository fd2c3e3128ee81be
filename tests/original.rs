use intar::{
    apply_vm_steps_to_cloud_init, generate_run_name, CloudInitConfig, FieldValue, IntarDirs,
    ProbeSpec, ServiceState, SystemctlAction, VmAction, VmStep,
};

#[test]
fn test_intar_dirs() {
    let dirs = IntarDirs::new().unwrap();
    assert!(dirs.images_dir().contains("intar"));
    assert!(dirs.runs_dir().contains("intar"));
}

#[test]
fn test_generate_run_name() {
    let name = generate_run_name();
    assert!(!name.is_empty());
    assert!(name.contains('-'));
}

#[test]
fn test_apply_vm_steps_to_cloud_init() {
    let steps = vec![VmStep {
        name: "break-nginx".into(),
        actions: vec![
            VmAction::Systemctl {
                unit: "nginx".into(),
                action: SystemctlAction::Stop,
            },
            VmAction::FileDelete {
                path: "/etc/nginx/sites-enabled/default".into(),
            },
            VmAction::K8sNamespace {
                name: "test".into(),
                kubeconfig: Some("/etc/rancher/k3s/k3s.yaml".into()),
            },
        ],
    }];

    let mut config = CloudInitConfig {
        packages: vec!["nginx".into()],
        network_config: None,
        runcmd: Some("echo pre\n".into()),
        write_files: Vec::new(),
    };

    apply_vm_steps_to_cloud_init("web", &steps, &mut config).unwrap();

    let runcmd = config.runcmd.as_deref().unwrap();
    assert!(runcmd.contains("echo pre"));
    assert!(runcmd.contains("bash /run/intar-step-web-break-nginx.sh"));

    let script = config
        .write_files
        .iter()
        .find(|f| f.path == "/run/intar-step-web-break-nginx.sh")
        .map(|f| f.content.as_str())
        .unwrap();
    assert!(script.contains("trap 'rm -f -- \"$0\"' EXIT"));
    assert!(script.contains("exec >/dev/null 2>&1"));
    assert!(script.contains("systemctl stop 'nginx'"));
    assert!(script.contains("rm -f -- '/etc/nginx/sites-enabled/default'"));
    assert!(script.contains("export KUBECONFIG='/etc/rancher/k3s/k3s.yaml'"));
    assert!(script.contains("| kubectl apply -f -"));
}

fn field_text(fields: &[(String, FieldValue)]) -> String {
    let mut out = String::new();
    for (k, v) in fields {
        out.push_str(k);
        out.push('=');
        match v {
            FieldValue::Str(s) => out.push_str(s),
            FieldValue::Int(n) => out.push_str(&n.to_string()),
            FieldValue::Bool(b) => out.push_str(&b.to_string()),
            FieldValue::Null => out.push_str("null"),
        }
        out.push(';');
    }
    out
}

#[test]
fn test_probe_spec_serialization() {
    let spec = ProbeSpec::Service {
        service: "nginx".to_string(),
        state: ServiceState::Running,
    };

    let (tag, fields) = spec.to_fields();
    let text = format!("{tag};{}", field_text(&fields));
    assert!(text.contains("service"));
    assert!(text.contains("nginx"));

    let parsed = ProbeSpec::from_definition(&tag, &fields).unwrap();
    assert_eq!(parsed, spec);
}

#[test]
fn test_from_definition() {
    let config = vec![
        ("service".to_string(), FieldValue::Str("nginx".to_string())),
        ("state".to_string(), FieldValue::Str("running".to_string())),
    ];

    let spec = ProbeSpec::from_definition("service", &config).unwrap();
    assert!(matches!(spec, ProbeSpec::Service { .. }));
}

#[test]
fn test_from_definition_alias_k8s_endpoints_nonempty() {
    let config = vec![
        ("namespace".to_string(), FieldValue::Str("default".to_string())),
        ("name".to_string(), FieldValue::Str("echo-svc".to_string())),
    ];

    let spec = ProbeSpec::from_definition("k8s_endpoints_nonempty", &config).unwrap();
    assert!(matches!(spec, ProbeSpec::K8sEndpointsNonEmpty { .. }));
}
