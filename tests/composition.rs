use intar::{
    apply_vm_steps_to_cloud_init, build_cloud_init_config, generate_macs, is_hidden_step,
    mgmt_ip, needs_lan_switch, network_args, shell_quote, slugify, vm_addresses,
    CloudInitConfig, CloudInitGenerator, IsoTool, PortPool, SharedNetworkEndpoint,
    SystemctlAction, VmAction, VmDefinition, VmError, VmStep, WriteFile,
};

fn config() -> CloudInitConfig {
    CloudInitConfig { packages: Vec::new(), network_config: None, runcmd: None, write_files: Vec::new() }
}

#[test]
fn hidden_step_names() {
    assert!(is_hidden_step("break"));
    assert!(is_hidden_step("breakage"));
    assert!(is_hidden_step("safe-break-check"));
    assert!(is_hidden_step("rebreak"));
    assert!(!is_hidden_step("BREAK-it"));
    assert!(!is_hidden_step("Break-nginx"));
    assert!(!is_hidden_step("rebuild"));
}

#[test]
fn slug_and_quote() {
    assert_eq!(slugify("Web Server #1"), "web-server-1");
    assert_eq!(slugify("***"), "step");
    assert_eq!(slugify("a_b--c!"), "a_b--c");
    assert_eq!(shell_quote("it's"), "'it'\\''s'");
}

#[test]
fn break_step_script_layout() {
    let steps = vec![VmStep {
        name: "break-nginx".into(),
        actions: vec![
            VmAction::Systemctl { unit: "nginx".into(), action: SystemctlAction::Stop },
            VmAction::FileDelete { path: "/etc/nginx/sites-enabled/default".into() },
        ],
    }];
    let mut c = config();
    apply_vm_steps_to_cloud_init("vm1", &steps, &mut c).unwrap();
    assert_eq!(c.write_files.len(), 1);
    let f = &c.write_files[0];
    assert_eq!(f.path, "/run/intar-step-vm1-break-nginx.sh");
    assert_eq!(f.permissions.as_deref(), Some("0755"));
    let lines: Vec<&str> = f.content.lines().collect();
    assert_eq!(lines[0], "#!/usr/bin/env bash");
    assert_eq!(lines[1], "set -euo pipefail");
    assert_eq!(lines[2], "trap 'rm -f -- \"$0\"' EXIT");
    assert_eq!(lines[3], "exec >/dev/null 2>&1");
    assert_eq!(lines[4], "systemctl stop 'nginx'");
    assert_eq!(lines[5], "rm -f -- '/etc/nginx/sites-enabled/default'");
    assert_eq!(c.runcmd.as_deref(), Some("bash /run/intar-step-vm1-break-nginx.sh\n"));
}

#[test]
fn regular_step_runs_once_and_logs() {
    let steps = vec![VmStep {
        name: "Install Tools".into(),
        actions: vec![
            VmAction::Command { cmd: "apt-get install -y jq".into() },
            VmAction::FileWrite {
                path: "/etc/motd".into(),
                content: "hi".into(),
                permissions: Some("0644".into()),
            },
            VmAction::Systemctl { unit: "nginx".into(), action: SystemctlAction::EnableNow },
        ],
    }];
    let mut c = config();
    c.runcmd = Some("echo pre".into());
    apply_vm_steps_to_cloud_init("web", &steps, &mut c).unwrap();
    let f = &c.write_files[0];
    assert_eq!(f.path, "/usr/local/bin/intar-step-web-install-tools.sh");
    assert_eq!(
        f.content,
        "#!/usr/bin/env bash\nset -euo pipefail\nLOG_DIR=/var/log/intar\nmkdir -p \"$LOG_DIR\"\n\
exec >\"$LOG_DIR/step-web-install-tools.log\" 2>&1\necho \"[intar] step web/install-tools starting\"\n\
\napt-get install -y jq\n\
install -d -m 0755 -- \"$(dirname -- '/etc/motd')\"\ncat <<'INTAR_EOF_install-tools_1' > '/etc/motd'\nhi\nINTAR_EOF_install-tools_1\nchmod 0644 -- '/etc/motd'\n\
systemctl enable --now 'nginx'\n\
echo \"[intar] step web/install-tools complete\"\n"
    );
    assert_eq!(
        c.runcmd.as_deref(),
        Some("echo pre\ncloud-init-per once intar-step-web-install-tools /usr/local/bin/intar-step-web-install-tools.sh\n")
    );
}

#[test]
fn file_replace_regex_and_literal() {
    let steps = vec![VmStep {
        name: "edit".into(),
        actions: vec![
            VmAction::FileReplace {
                path: "/etc/a".into(),
                pattern: "^foo\\d+$".into(),
                replacement: "bar".into(),
                regex: true,
            },
            VmAction::FileReplace {
                path: "/etc/b".into(),
                pattern: "a\"b".into(),
                replacement: "c".into(),
                regex: false,
            },
        ],
    }];
    let mut c = config();
    apply_vm_steps_to_cloud_init("vm", &steps, &mut c).unwrap();
    let s = &c.write_files[0].content;
    assert!(s.contains("pattern = \"^foo\\\\d+$\"\n"));
    assert!(s.contains("new = re.sub(pattern, replacement, data, flags=re.MULTILINE)\n"));
    assert!(s.contains("pattern = \"a\\\"b\"\n"));
    assert!(s.contains("new = data.replace(pattern, replacement)\n"));
}

#[test]
fn k8s_namespace_manifest_and_default_kubeconfig() {
    let steps = vec![VmStep {
        name: "ns".into(),
        actions: vec![VmAction::K8sNamespace { name: "demo".into(), kubeconfig: None }],
    }];
    let mut c = config();
    apply_vm_steps_to_cloud_init("k", &steps, &mut c).unwrap();
    let s = &c.write_files[0].content;
    assert!(s.contains("if [ -z \"${KUBECONFIG:-}\" ]; then\n"));
    assert!(s.contains("cat <<'INTAR_K8S_MANIFEST_ns_0' | kubectl apply -f -\n{\n  \"apiVersion\": \"v1\",\n  \"kind\": \"Namespace\",\n  \"metadata\": {\n    \"name\": \"demo\"\n  }\n}\nINTAR_K8S_MANIFEST_ns_0\n"));
}

#[test]
fn no_steps_leave_config_alone() {
    let mut c = config();
    c.runcmd = Some("x".into());
    apply_vm_steps_to_cloud_init("vm", &[].to_vec(), &mut c).unwrap();
    assert_eq!(c, CloudInitConfig { runcmd: Some("x".into()), ..config() });
}

#[test]
fn management_addresses_and_limit() {
    assert_eq!(mgmt_ip(0).unwrap(), "10.0.2.100");
    assert_eq!(mgmt_ip(144).unwrap(), "10.0.2.244");
    assert_eq!(mgmt_ip(154).unwrap(), "10.0.2.254");
    assert!(matches!(mgmt_ip(155), Err(VmError::Qemu(_))));
    let a = vm_addresses(144).unwrap();
    assert_eq!(a.lan_ip, "10.11.0.154");
    assert_eq!(a.primary_mac, "52:54:00:12:56:a0");
    assert_eq!(a.lan_mac, "52:54:00:12:57:d0");
    let (p, l) = generate_macs(0).unwrap();
    assert_eq!(p, "52:54:00:12:56:10");
    assert_eq!(l.as_deref(), Some("52:54:00:12:57:40"));
}

#[test]
fn lan_switch_only_with_two_vms() {
    assert!(!needs_lan_switch(0));
    assert!(!needs_lan_switch(1));
    assert!(needs_lan_switch(2));
}

#[test]
fn single_vm_has_one_netdev() {
    let args = network_args(2222, "10.0.2.100", &Some("52:54:00:12:56:10".into()), None, &None);
    assert_eq!(args.iter().filter(|a| a.as_str() == "-netdev").count(), 1);
    assert_eq!(args[1], "user,id=net0,hostfwd=tcp::2222-10.0.2.100:22");
    let lan = SharedNetworkEndpoint::Dgram { hub_port: 4000, local_port: 4001 };
    let args = network_args(2222, "10.0.2.100", &None, Some(lan), &Some("m".into()));
    assert_eq!(args.iter().filter(|a| a.as_str() == "-netdev").count(), 2);
    assert_eq!(args[5], "dgram,id=net1,local.type=inet,local.host=127.0.0.1,local.port=4001,remote.type=inet,remote.host=127.0.0.1,remote.port=4000");
    assert_eq!(args[7], "virtio-net-pci,netdev=net1,mac=m");
}

#[test]
fn port_pool_runs_out() {
    let mut pool = PortPool::new(vec![2201, 2202]);
    assert_eq!(pool.next_port().unwrap(), 2201);
    assert_eq!(pool.next_port().unwrap(), 2202);
    assert!(pool.next_port().is_err());
    assert_eq!(pool.index, 2);
}

#[test]
fn user_and_meta_data() {
    let g = CloudInitGenerator::new("ssh-ed25519 AAAA".into(), vec![1, 2, 3]);
    assert_eq!(g.generate_meta_data("a", "b"), "instance-id: a\nlocal-hostname: b\n");
    let mut c = config();
    c.packages = vec!["jq".into()];
    c.write_files = vec![WriteFile { path: "/x".into(), content: "l1\nl2\n".into(), permissions: None }];
    c.runcmd = Some("  one  \n\ntwo".into());
    let u = g.generate_user_data(&c, "web");
    assert!(u.starts_with("#cloud-config\nhostname: web\npackage_update: false\n"));
    assert!(u.contains("      - ssh-ed25519 AAAA\npackages:\n  - jq\nwrite_files:\n"));
    assert!(u.contains("    content: AQID\n"));
    assert!(u.contains("  - path: /x\n    content: |\n      l1\n      l2\n"));
    assert!(u.ends_with("      fi\n  - one\n  - two\n"));
}

#[test]
fn iso_tools_in_order() {
    let mut t = IsoTool::first();
    let mut names = vec![t.program()];
    while let Some(n) = t.next() {
        names.push(n.program());
        t = n;
    }
    assert_eq!(names, vec!["cloud-localds", "mkisofs", "genisoimage", "xorriso", "hdiutil"]);
    let a = IsoTool::Xorriso.args("o.iso", "u", "m", Some("n"), "d");
    assert_eq!(a, vec!["-as", "mkisofs", "-output", "o.iso", "-volid", "cidata", "-joliet", "-rock", "u", "m", "n"]);
    let a = IsoTool::CloudLocalds.args("o.iso", "u", "m", Some("n"), "d");
    assert_eq!(a, vec!["--network-config=n", "o.iso", "u", "m"]);
}

#[test]
fn full_guest_configuration() {
    let vm = VmDefinition {
        name: "web".into(),
        cpu: 1,
        memory: 512,
        disk: 10,
        image: "base".into(),
        cloud_init: None,
        steps: Vec::new(),
        probes: Vec::new(),
    };
    let names = vec!["web".to_string(), "k3s-1".to_string()];
    let c = build_cloud_init_config(&vm, &names, "52:54:00:12:56:10", "10.0.2.100", Some(("10.11.0.10", "52:54:00:12:57:40"))).unwrap();
    assert_eq!(c.write_files.len(), 3);
    assert_eq!(c.write_files[0].path, "/etc/hosts.intar");
    assert_eq!(c.write_files[0].content, "127.0.0.1 localhost\n10.11.0.10 web.intar web\n10.11.0.11 k3s-1.intar k3s-1 k3s-server.intar k3s-server\n");
    assert!(c.network_config.as_deref().unwrap().contains("    lan0:\n      match:\n        macaddress: \"52:54:00:12:57:40\"\n"));
    assert!(c.write_files[2].content.contains("ip addr add 10.11.0.10/24 dev \"$LAN_IF\""));
    assert_eq!(c.runcmd.as_deref(), Some("/usr/local/bin/intar-net-setup.sh\ncat /etc/hosts.intar >> /etc/hosts\n"));
}

#[test]
fn deployment_labels_in_key_order() {
    let steps = vec![VmStep {
        name: "deploy".into(),
        actions: vec![VmAction::K8sService {
            name: "web".into(),
            namespace: "default".into(),
            selector: vec![("tier".into(), "front".into()), ("app".into(), "old".into()), ("app".into(), "web".into())],
            port: 80,
            target_port: 8080,
            kubeconfig: None,
        }],
    }];
    let mut c = config();
    apply_vm_steps_to_cloud_init("k", &steps, &mut c).unwrap();
    let s = &c.write_files[0].content;
    assert!(s.contains("    \"selector\": {\n      \"app\": \"web\",\n      \"tier\": \"front\"\n    }\n"));
    assert!(s.contains("        \"port\": 80,\n        \"targetPort\": 8080\n"));
}
