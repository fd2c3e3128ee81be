//! Compilation of VM steps into first-boot shell scripts.
use vstd::prelude::*;
use crate::error::VmError;
use crate::sorted_pairs::{sort_by_key, sorted_by_key};
use crate::cloud_init::chars_of;
use crate::scenario::{CloudInitConfig, SystemctlAction, VmAction, VmStep, WriteFile};
use crate::text::{
    chars_contain, decimal, json_quote, json_string_literal, push_char,
    ends_with_newline, push_decimal, push_spaces, push_str, push_with_final_newline, seq_contains,
    shell_quote,
    shell_quoted, slug_of, slugify, spaces, with_final_newline,
};

verus! {

/// Steps whose name holds `break` run hidden: from `/run`,
/// silently, and on every boot.
pub open spec fn hidden_step_name(name: Seq<char>) -> bool {
    seq_contains(name, "break"@)
}

pub open spec fn step_script_path(vm: Seq<char>, step: Seq<char>, hidden: bool) -> Seq<char> {
    if hidden {
        "/run/intar-step-"@ + vm + "-"@ + step + ".sh"@
    } else {
        "/usr/local/bin/intar-step-"@ + vm + "-"@ + step + ".sh"@
    }
}

/// The runcmd line that runs a step's script: directly when hidden, else once
/// across reboots through `cloud-init-per`.
pub open spec fn step_runcmd_line(vm: Seq<char>, step: Seq<char>, hidden: bool) -> Seq<char> {
    if hidden {
        "bash "@ + step_script_path(vm, step, hidden)
    } else {
        "cloud-init-per once intar-step-"@ + vm + "-"@ + step + " "@ + step_script_path(
            vm,
            step,
            hidden,
        )
    }
}

pub open spec fn step_header(vm: Seq<char>, step: Seq<char>, hidden: bool) -> Seq<char> {
    "#!/usr/bin/env bash\n"@ + "set -euo pipefail\n"@ + if hidden {
        "trap 'rm -f -- \"$0\"' EXIT\n"@ + "exec >/dev/null 2>&1\n"@
    } else {
        "LOG_DIR=/var/log/intar\n"@ + "mkdir -p \"$LOG_DIR\"\n"@ + "exec >\"$LOG_DIR/step-"@ + vm
            + "-"@ + step + ".log\" 2>&1\n"@ + "echo \"[intar] step "@ + vm + "/"@ + step
            + " starting\"\n"@
    }
}

pub open spec fn step_footer(vm: Seq<char>, step: Seq<char>, hidden: bool) -> Seq<char> {
    if hidden {
        Seq::empty()
    } else {
        "echo \"[intar] step "@ + vm + "/"@ + step + " complete\"\n"@
    }
}

pub open spec fn systemctl_verb(a: SystemctlAction) -> Seq<char> {
    match a {
        SystemctlAction::Start => "start"@,
        SystemctlAction::Stop => "stop"@,
        SystemctlAction::Restart => "restart"@,
        SystemctlAction::Enable => "enable"@,
        SystemctlAction::Disable => "disable"@,
        SystemctlAction::EnableNow => "enable --now"@,
    }
}

pub open spec fn file_write_text(
    step: Seq<char>,
    idx: nat,
    path: Seq<char>,
    content: Seq<char>,
    permissions: Option<Seq<char>>,
) -> Seq<char> {
    let marker = "INTAR_EOF_"@ + step + "_"@ + decimal(idx);
    "install -d -m 0755 -- \"$(dirname -- "@ + shell_quoted(path) + ")\"\n"@ + "cat <<'"@
        + marker + "' > "@ + shell_quoted(path) + "\n"@ + with_final_newline(content) + marker
        + "\n"@ + match permissions {
        Some(p) => "chmod "@ + p + " -- "@ + shell_quoted(path) + "\n"@,
        None => Seq::empty(),
    }
}

pub open spec fn file_replace_text(
    path: Seq<char>,
    pattern: Seq<char>,
    replacement: Seq<char>,
    regex: bool,
) -> Seq<char> {
    "python3 - <<'PY'\n"@ + "from pathlib import Path\n"@ + "import re\n"@ + "path = "@
        + json_string_literal(path) + "\n"@ + "pattern = "@ + json_string_literal(pattern)
        + "\n"@ + "replacement = "@ + json_string_literal(replacement) + "\n"@
        + "data = Path(path).read_text(encoding='utf-8')\n"@ + if regex {
        "new = re.sub(pattern, replacement, data, flags=re.MULTILINE)\n"@
    } else {
        "new = data.replace(pattern, replacement)\n"@
    } + "Path(path).write_text(new, encoding='utf-8')\n"@ + "PY\n"@
}

pub open spec fn kubeconfig_selection(kubeconfig: Option<Seq<char>>) -> Seq<char> {
    match kubeconfig {
        Some(cfg) => "export KUBECONFIG="@ + shell_quoted(cfg) + "\n"@,
        None => "if [ -z \"${KUBECONFIG:-}\" ]; then\n"@
            + "  if [ -f /etc/rancher/k3s/k3s.yaml ]; then\n"@
            + "    export KUBECONFIG=/etc/rancher/k3s/k3s.yaml\n"@
            + "  elif [ -f /etc/kubernetes/admin.conf ]; then\n"@
            + "    export KUBECONFIG=/etc/kubernetes/admin.conf\n"@ + "  fi\n"@ + "fi\n"@,
    }
}

pub open spec fn k8s_apply_text(
    step: Seq<char>,
    idx: nat,
    kubeconfig: Option<Seq<char>>,
    manifest: Seq<char>,
) -> Seq<char> {
    let marker = "INTAR_K8S_MANIFEST_"@ + step + "_"@ + decimal(idx);
    kubeconfig_selection(kubeconfig) + "cat <<'"@ + marker + "' | kubectl apply -f -\n"@
        + with_final_newline(manifest) + marker + "\n"@
}

pub open spec fn json_field(indent: nat, key: Seq<char>, value: Seq<char>) -> Seq<char> {
    spaces(indent) + key + ": "@ + value
}

/// The members of a JSON object of string pairs, one per line at `indent`.
pub open spec fn json_pairs(entries: Seq<(String, String)>, indent: nat) -> Seq<char>
    decreases entries.len(),
{
    if entries.len() == 0 {
        Seq::empty()
    } else if entries.len() == 1 {
        json_field(
            indent,
            json_string_literal(entries[0].0@),
            json_string_literal(entries[0].1@),
        )
    } else {
        json_pairs(entries.drop_last(), indent) + ",\n"@ + json_field(
            indent,
            json_string_literal(entries.last().0@),
            json_string_literal(entries.last().1@),
        )
    }
}

/// A pretty-printed JSON object of string pairs whose closing brace sits at
/// `indent`.
pub open spec fn json_object(entries: Seq<(String, String)>, indent: nat) -> Seq<char> {
    if entries.len() == 0 {
        "{}"@
    } else {
        "{\n"@ + json_pairs(entries, indent + 2) + "\n"@ + spaces(indent) + "}"@
    }
}

pub open spec fn namespace_manifest(name: Seq<char>) -> Seq<char> {
    "{\n"@ + "  \"apiVersion\": \"v1\",\n"@ + "  \"kind\": \"Namespace\",\n"@
        + "  \"metadata\": {\n"@ + "    \"name\": "@ + json_string_literal(name) + "\n"@
        + "  }\n"@ + "}"@
}

pub open spec fn deployment_manifest(
    name: Seq<char>,
    namespace: Seq<char>,
    image: Seq<char>,
    replicas: nat,
    labels: Seq<(String, String)>,
    container_port: nat,
) -> Seq<char> {
    "{\n"@ + "  \"apiVersion\": \"apps/v1\",\n"@ + "  \"kind\": \"Deployment\",\n"@
        + "  \"metadata\": {\n"@ + "    \"name\": "@ + json_string_literal(name) + ",\n"@
        + "    \"namespace\": "@ + json_string_literal(namespace) + "\n"@ + "  },\n"@
        + "  \"spec\": {\n"@ + "    \"replicas\": "@ + decimal(replicas) + ",\n"@
        + "    \"selector\": {\n"@ + "      \"matchLabels\": "@ + json_object(sorted_by_key(labels), 6) + "\n"@
        + "    },\n"@ + "    \"template\": {\n"@ + "      \"metadata\": {\n"@
        + "        \"labels\": "@ + json_object(sorted_by_key(labels), 8) + "\n"@ + "      },\n"@
        + "      \"spec\": {\n"@ + "        \"containers\": [\n"@ + "          {\n"@
        + "            \"image\": "@ + json_string_literal(image) + ",\n"@
        + "            \"name\": "@ + json_string_literal(name) + ",\n"@
        + "            \"ports\": [\n"@ + "              {\n"@
        + "                \"containerPort\": "@ + decimal(container_port) + "\n"@
        + "              }\n"@ + "            ]\n"@ + "          }\n"@ + "        ]\n"@
        + "      }\n"@ + "    }\n"@ + "  }\n"@ + "}"@
}

pub open spec fn service_manifest(
    name: Seq<char>,
    namespace: Seq<char>,
    selector: Seq<(String, String)>,
    port: nat,
    target_port: nat,
) -> Seq<char> {
    "{\n"@ + "  \"apiVersion\": \"v1\",\n"@ + "  \"kind\": \"Service\",\n"@
        + "  \"metadata\": {\n"@ + "    \"name\": "@ + json_string_literal(name) + ",\n"@
        + "    \"namespace\": "@ + json_string_literal(namespace) + "\n"@ + "  },\n"@
        + "  \"spec\": {\n"@ + "    \"ports\": [\n"@ + "      {\n"@ + "        \"port\": "@
        + decimal(port) + ",\n"@ + "        \"targetPort\": "@ + decimal(target_port) + "\n"@
        + "      }\n"@ + "    ],\n"@ + "    \"selector\": "@ + json_object(sorted_by_key(selector), 4) + "\n"@
        + "  }\n"@ + "}"@
}

pub open spec fn opt_view(o: Option<String>) -> Option<Seq<char>> {
    match o {
        Some(s) => Some(s@),
        None => None,
    }
}

/// The shell text of the action at position `idx` of a step.
pub open spec fn action_text(step: Seq<char>, idx: nat, a: VmAction) -> Seq<char> {
    match a {
        VmAction::FileDelete { path } => "rm -f -- "@ + shell_quoted(path@) + "\n"@,
        VmAction::FileWrite { path, content, permissions } => file_write_text(
            step,
            idx,
            path@,
            content@,
            opt_view(permissions),
        ),
        VmAction::FileReplace { path, pattern, replacement, regex } => file_replace_text(
            path@,
            pattern@,
            replacement@,
            regex,
        ),
        VmAction::Systemctl { unit, action } => "systemctl "@ + systemctl_verb(action) + " "@
            + shell_quoted(unit@) + "\n"@,
        VmAction::Command { cmd } => "\n"@ + with_final_newline(cmd@),
        VmAction::K8sApply { manifest, kubeconfig } => k8s_apply_text(
            step,
            idx,
            opt_view(kubeconfig),
            manifest@,
        ),
        VmAction::K8sNamespace { name, kubeconfig } => k8s_apply_text(
            step,
            idx,
            opt_view(kubeconfig),
            namespace_manifest(name@),
        ),
        VmAction::K8sDeployment {
            name,
            namespace,
            image,
            replicas,
            labels,
            container_port,
            kubeconfig,
        } => k8s_apply_text(
            step,
            idx,
            opt_view(kubeconfig),
            deployment_manifest(
                name@,
                namespace@,
                image@,
                replicas as nat,
                labels@,
                container_port as nat,
            ),
        ),
        VmAction::K8sService { name, namespace, selector, port, target_port, kubeconfig } =>
            k8s_apply_text(
            step,
            idx,
            opt_view(kubeconfig),
            service_manifest(name@, namespace@, selector@, port as nat, target_port as nat),
        ),
    }
}

/// The texts of `actions`, in declaration order.
pub open spec fn actions_text(step: Seq<char>, actions: Seq<VmAction>) -> Seq<char>
    decreases actions.len(),
{
    if actions.len() == 0 {
        Seq::empty()
    } else {
        actions_text(step, actions.drop_last()) + action_text(
            step,
            (actions.len() - 1) as nat,
            actions.last(),
        )
    }
}

/// The complete script of one step.
pub open spec fn step_script(vm: Seq<char>, step: Seq<char>, actions: Seq<VmAction>, hidden: bool) -> Seq<char> {
    step_header(vm, step, hidden) + actions_text(step, actions) + step_footer(vm, step, hidden)
}

/// `runcmd` with `line` added on a line of its own.
pub open spec fn runcmd_appended(runcmd: Seq<char>, line: Seq<char>) -> Seq<char> {
    (if runcmd.len() > 0 && runcmd.last() != '\n' {
        runcmd.push('\n')
    } else {
        runcmd
    }) + line + "\n"@
}

/// `runcmd` after the lines that run each of `steps` were added.
pub open spec fn runcmd_with_steps(runcmd: Seq<char>, vm: Seq<char>, steps: Seq<VmStep>) -> Seq<char>
    decreases steps.len(),
{
    if steps.len() == 0 {
        runcmd
    } else {
        let s = steps.last();
        let step = slug_of(s.name@);
        runcmd_appended(
            runcmd_with_steps(runcmd, vm, steps.drop_last()),
            step_runcmd_line(vm, step, hidden_step_name(s.name@)),
        )
    }
}

/// The file that cloud-init writes for `s` on the VM whose slug is `vm`.
pub open spec fn step_file_ok(vm: Seq<char>, s: VmStep, f: WriteFile) -> bool {
    let step = slug_of(s.name@);
    let hidden = hidden_step_name(s.name@);
    &&& f.path@ == step_script_path(vm, step, hidden)
    &&& f.content@ == step_script(vm, step, s.actions@, hidden)
    &&& f.permissions matches Some(p) && p@ == "0755"@
}


} // verus!

verus! {

/// Whether a step with this name runs hidden.
pub fn is_hidden_step(name: &str) -> (r: bool)
    ensures
        r == hidden_step_name(name@),
{
    let low = chars_of(name);
    let word = vec!['b', 'r', 'e', 'a', 'k'];
    proof {
        reveal_strlit("break");
        assert(word@ =~= "break"@);
    }
    chars_contain(&low, &word)
}

} // verus!

verus! {

fn render_file_delete(out: &mut String, path: &str)
    ensures
        final(out)@ == old(out)@ + ("rm -f -- "@ + shell_quoted(path@) + "\n"@),
{
    push_str(out, "rm -f -- ");
    let q = shell_quote(path);
    push_str(out, q.as_str());
    push_str(out, "\n");
    assert(out@ =~= old(out)@ + ("rm -f -- "@ + shell_quoted(path@) + "\n"@));
}

fn push_marker(out: &mut String, prefix: &str, step: &str, idx: usize)
    ensures
        final(out)@ == old(out)@ + (prefix@ + step@ + "_"@ + decimal(idx as nat)),
{
    push_str(out, prefix);
    push_str(out, step);
    push_str(out, "_");
    push_decimal(out, idx as u64);
    assert(out@ =~= old(out)@ + (prefix@ + step@ + "_"@ + decimal(idx as nat)));
}

fn render_file_write(
    out: &mut String,
    step: &str,
    idx: usize,
    path: &str,
    content: &str,
    permissions: &Option<String>,
)
    ensures
        final(out)@ == old(out)@ + file_write_text(
            step@,
            idx as nat,
            path@,
            content@,
            opt_view(*permissions),
        ),
{
    let ghost marker = "INTAR_EOF_"@ + step@ + "_"@ + decimal(idx as nat);
    let q = shell_quote(path);
    push_str(out, "install -d -m 0755 -- \"$(dirname -- ");
    push_str(out, q.as_str());
    push_str(out, ")\"\n");
    push_str(out, "cat <<'");
    push_marker(out, "INTAR_EOF_", step, idx);
    push_str(out, "' > ");
    push_str(out, q.as_str());
    push_str(out, "\n");
    push_with_final_newline(out, content);
    push_marker(out, "INTAR_EOF_", step, idx);
    push_str(out, "\n");
    let ghost mid = out@;
    match permissions {
        Some(p) => {
            push_str(out, "chmod ");
            push_str(out, p.as_str());
            push_str(out, " -- ");
            push_str(out, q.as_str());
            push_str(out, "\n");
            assert(out@ =~= mid + ("chmod "@ + p@ + " -- "@ + shell_quoted(path@) + "\n"@));
        },
        None => {
            assert(out@ =~= mid + Seq::<char>::empty());
        },
    }
    assert(out@ =~= old(out)@ + file_write_text(
        step@,
        idx as nat,
        path@,
        content@,
        opt_view(*permissions),
    ));
}

fn push_json(out: &mut String, s: &str) -> (r: Result<(), VmError>)
    ensures
        r is Ok,
        final(out)@ == old(out)@ + json_string_literal(s@),
{
    match json_quote(s) {
        Ok(lit) => {
            push_str(out, lit.as_str());
            Ok(())
        },
        Err(_) => Err(VmError::CloudInit(String::from_str("failed to encode a JSON string"))),
    }
}

fn render_file_replace(
    out: &mut String,
    path: &str,
    pattern: &str,
    replacement: &str,
    regex: bool,
) -> (r: Result<(), VmError>)
    ensures
        r is Ok,
        final(out)@ == old(out)@ + file_replace_text(
            path@,
            pattern@,
            replacement@,
            regex,
        ),
{
    push_str(out, "python3 - <<'PY'\n");
    push_str(out, "from pathlib import Path\n");
    push_str(out, "import re\n");
    push_str(out, "path = ");
    push_json(out, path)?;
    push_str(out, "\n");
    push_str(out, "pattern = ");
    push_json(out, pattern)?;
    push_str(out, "\n");
    push_str(out, "replacement = ");
    push_json(out, replacement)?;
    push_str(out, "\n");
    push_str(out, "data = Path(path).read_text(encoding='utf-8')\n");
    if regex {
        push_str(out, "new = re.sub(pattern, replacement, data, flags=re.MULTILINE)\n");
    } else {
        push_str(out, "new = data.replace(pattern, replacement)\n");
    }
    push_str(out, "Path(path).write_text(new, encoding='utf-8')\n");
    push_str(out, "PY\n");
    assert(out@ =~= old(out)@ + file_replace_text(path@, pattern@, replacement@, regex));
    Ok(())
}

fn render_systemctl(out: &mut String, unit: &str, action: SystemctlAction)
    ensures
        final(out)@ == old(out)@ + ("systemctl "@ + systemctl_verb(action) + " "@ + shell_quoted(
            unit@,
        ) + "\n"@),
{
    push_str(out, "systemctl ");
    match action {
        SystemctlAction::Start => push_str(out, "start"),
        SystemctlAction::Stop => push_str(out, "stop"),
        SystemctlAction::Restart => push_str(out, "restart"),
        SystemctlAction::Enable => push_str(out, "enable"),
        SystemctlAction::Disable => push_str(out, "disable"),
        SystemctlAction::EnableNow => push_str(out, "enable --now"),
    }
    push_str(out, " ");
    let q = shell_quote(unit);
    push_str(out, q.as_str());
    push_str(out, "\n");
    assert(out@ =~= old(out)@ + ("systemctl "@ + systemctl_verb(action) + " "@ + shell_quoted(
        unit@,
    ) + "\n"@));
}

fn render_command(out: &mut String, cmd: &str)
    ensures
        final(out)@ == old(out)@ + ("\n"@ + with_final_newline(cmd@)),
{
    push_str(out, "\n");
    push_with_final_newline(out, cmd);
    assert(out@ =~= old(out)@ + ("\n"@ + with_final_newline(cmd@)));
}

fn render_kubeconfig_selection(out: &mut String, kubeconfig: &Option<String>)
    ensures
        final(out)@ == old(out)@ + kubeconfig_selection(opt_view(*kubeconfig)),
{
    match kubeconfig {
        Some(cfg) => {
            push_str(out, "export KUBECONFIG=");
            let q = shell_quote(cfg.as_str());
            push_str(out, q.as_str());
            push_str(out, "\n");
        },
        None => {
            push_str(out, "if [ -z \"${KUBECONFIG:-}\" ]; then\n");
            push_str(out, "  if [ -f /etc/rancher/k3s/k3s.yaml ]; then\n");
            push_str(out, "    export KUBECONFIG=/etc/rancher/k3s/k3s.yaml\n");
            push_str(out, "  elif [ -f /etc/kubernetes/admin.conf ]; then\n");
            push_str(out, "    export KUBECONFIG=/etc/kubernetes/admin.conf\n");
            push_str(out, "  fi\n");
            push_str(out, "fi\n");
        },
    }
    assert(out@ =~= old(out)@ + kubeconfig_selection(opt_view(*kubeconfig)));
}

fn render_k8s_apply(
    out: &mut String,
    step: &str,
    idx: usize,
    kubeconfig: &Option<String>,
    manifest: &str,
)
    ensures
        final(out)@ == old(out)@ + k8s_apply_text(
            step@,
            idx as nat,
            opt_view(*kubeconfig),
            manifest@,
        ),
{
    render_kubeconfig_selection(out, kubeconfig);
    push_str(out, "cat <<'");
    push_marker(out, "INTAR_K8S_MANIFEST_", step, idx);
    push_str(out, "' | kubectl apply -f -\n");
    push_with_final_newline(out, manifest);
    push_marker(out, "INTAR_K8S_MANIFEST_", step, idx);
    push_str(out, "\n");
    assert(out@ =~= old(out)@ + k8s_apply_text(
        step@,
        idx as nat,
        opt_view(*kubeconfig),
        manifest@,
    ));
}

} // verus!

verus! {

fn push_json_object(out: &mut String, entries: &Vec<(String, String)>, indent: usize) -> (r:
    Result<(), VmError>)
    requires
        indent <= 64,
    ensures
        r is Ok,
        final(out)@ == old(out)@ + json_object(entries@, indent as nat),
{
    if entries.len() == 0 {
        push_str(out, "{}");
        return Ok(());
    }
    push_str(out, "{\n");
    let ghost start = out@;
    let mut i: usize = 0;
    while i < entries.len()
        invariant
            indent <= 64,
            i <= entries@.len(),
            out@ == start + json_pairs(entries@.subrange(0, i as int), indent as nat + 2),
        decreases entries@.len() - i,
    {
        let ghost before = out@;
        if i > 0 {
            push_str(out, ",\n");
        }
        push_spaces(out, indent + 2);
        push_json(out, entries[i].0.as_str())?;
        push_str(out, ": ");
        push_json(out, entries[i].1.as_str())?;
        proof {
            let pre = entries@.subrange(0, i as int + 1);
            assert(pre.drop_last() =~= entries@.subrange(0, i as int));
            assert(pre.last() == entries@[i as int]);
            if i == 0 {
                assert(out@ =~= start + json_pairs(pre, indent as nat + 2));
            } else {
                assert(out@ =~= start + json_pairs(pre, indent as nat + 2));
            }
        }
        i += 1;
    }
    assert(entries@.subrange(0, entries@.len() as int) =~= entries@);
    push_str(out, "\n");
    push_spaces(out, indent);
    push_str(out, "}");
    assert(out@ =~= old(out)@ + json_object(entries@, indent as nat));
    Ok(())
}

fn namespace_manifest_text(name: &str) -> (r: Result<String, VmError>)
    ensures
        r matches Ok(m) && m@ == namespace_manifest(name@),
{
    let mut out = String::new();
    push_str(&mut out, "{\n");
    push_str(&mut out, "  \"apiVersion\": \"v1\",\n");
    push_str(&mut out, "  \"kind\": \"Namespace\",\n");
    push_str(&mut out, "  \"metadata\": {\n");
    push_str(&mut out, "    \"name\": ");
    push_json(&mut out, name)?;
    push_str(&mut out, "\n");
    push_str(&mut out, "  }\n");
    push_str(&mut out, "}");
    assert(out@ =~= namespace_manifest(name@));
    Ok(out)
}

fn deployment_manifest_text(
    name: &str,
    namespace: &str,
    image: &str,
    replicas: u32,
    labels: &Vec<(String, String)>,
    container_port: u16,
) -> (r: Result<String, VmError>)
    ensures
        r matches Ok(m) && m@ == deployment_manifest(
            name@,
            namespace@,
            image@,
            replicas as nat,
            labels@,
            container_port as nat,
        ),
{
    let mut out = String::new();
    push_str(&mut out, "{\n");
    push_str(&mut out, "  \"apiVersion\": \"apps/v1\",\n");
    push_str(&mut out, "  \"kind\": \"Deployment\",\n");
    push_str(&mut out, "  \"metadata\": {\n");
    push_str(&mut out, "    \"name\": ");
    push_json(&mut out, name)?;
    push_str(&mut out, ",\n");
    push_str(&mut out, "    \"namespace\": ");
    push_json(&mut out, namespace)?;
    push_str(&mut out, "\n");
    push_str(&mut out, "  },\n");
    push_str(&mut out, "  \"spec\": {\n");
    push_str(&mut out, "    \"replicas\": ");
    push_decimal(&mut out, replicas as u64);
    push_str(&mut out, ",\n");
    push_str(&mut out, "    \"selector\": {\n");
    push_str(&mut out, "      \"matchLabels\": ");
    let sorted = sort_by_key(labels);
    push_json_object(&mut out, &sorted, 6)?;
    push_str(&mut out, "\n");
    push_str(&mut out, "    },\n");
    push_str(&mut out, "    \"template\": {\n");
    push_str(&mut out, "      \"metadata\": {\n");
    push_str(&mut out, "        \"labels\": ");
    push_json_object(&mut out, &sorted, 8)?;
    push_str(&mut out, "\n");
    push_str(&mut out, "      },\n");
    push_str(&mut out, "      \"spec\": {\n");
    push_str(&mut out, "        \"containers\": [\n");
    push_str(&mut out, "          {\n");
    push_str(&mut out, "            \"image\": ");
    push_json(&mut out, image)?;
    push_str(&mut out, ",\n");
    push_str(&mut out, "            \"name\": ");
    push_json(&mut out, name)?;
    push_str(&mut out, ",\n");
    push_str(&mut out, "            \"ports\": [\n");
    push_str(&mut out, "              {\n");
    push_str(&mut out, "                \"containerPort\": ");
    push_decimal(&mut out, container_port as u64);
    push_str(&mut out, "\n");
    push_str(&mut out, "              }\n");
    push_str(&mut out, "            ]\n");
    push_str(&mut out, "          }\n");
    push_str(&mut out, "        ]\n");
    push_str(&mut out, "      }\n");
    push_str(&mut out, "    }\n");
    push_str(&mut out, "  }\n");
    push_str(&mut out, "}");
    assert(out@ =~= deployment_manifest(
        name@,
        namespace@,
        image@,
        replicas as nat,
        labels@,
        container_port as nat,
    ));
    Ok(out)
}

fn service_manifest_text(
    name: &str,
    namespace: &str,
    selector: &Vec<(String, String)>,
    port: u16,
    target_port: u16,
) -> (r: Result<String, VmError>)
    ensures
        r matches Ok(m) && m@ == service_manifest(
            name@,
            namespace@,
            selector@,
            port as nat,
            target_port as nat,
        ),
{
    let mut out = String::new();
    push_str(&mut out, "{\n");
    push_str(&mut out, "  \"apiVersion\": \"v1\",\n");
    push_str(&mut out, "  \"kind\": \"Service\",\n");
    push_str(&mut out, "  \"metadata\": {\n");
    push_str(&mut out, "    \"name\": ");
    push_json(&mut out, name)?;
    push_str(&mut out, ",\n");
    push_str(&mut out, "    \"namespace\": ");
    push_json(&mut out, namespace)?;
    push_str(&mut out, "\n");
    push_str(&mut out, "  },\n");
    push_str(&mut out, "  \"spec\": {\n");
    push_str(&mut out, "    \"ports\": [\n");
    push_str(&mut out, "      {\n");
    push_str(&mut out, "        \"port\": ");
    push_decimal(&mut out, port as u64);
    push_str(&mut out, ",\n");
    push_str(&mut out, "        \"targetPort\": ");
    push_decimal(&mut out, target_port as u64);
    push_str(&mut out, "\n");
    push_str(&mut out, "      }\n");
    push_str(&mut out, "    ],\n");
    push_str(&mut out, "    \"selector\": ");
    let sorted = sort_by_key(selector);
    push_json_object(&mut out, &sorted, 4)?;
    push_str(&mut out, "\n");
    push_str(&mut out, "  }\n");
    push_str(&mut out, "}");
    assert(out@ =~= service_manifest(
        name@,
        namespace@,
        selector@,
        port as nat,
        target_port as nat,
    ));
    Ok(out)
}

} // verus!

verus! {

fn render_action(out: &mut String, step: &str, idx: usize, action: &VmAction) -> (r: Result<
    (),
    VmError,
>)
    ensures
        r is Ok,
        final(out)@ == old(out)@ + action_text(step@, idx as nat, *action),
{
    match action {
        VmAction::FileDelete { path } => {
            render_file_delete(out, path.as_str());
            Ok(())
        },
        VmAction::FileWrite { path, content, permissions } => {
            render_file_write(out, step, idx, path.as_str(), content.as_str(), permissions);
            Ok(())
        },
        VmAction::FileReplace { path, pattern, replacement, regex } => render_file_replace(
            out,
            path.as_str(),
            pattern.as_str(),
            replacement.as_str(),
            *regex,
        ),
        VmAction::Systemctl { unit, action } => {
            render_systemctl(out, unit.as_str(), *action);
            Ok(())
        },
        VmAction::Command { cmd } => {
            render_command(out, cmd.as_str());
            Ok(())
        },
        VmAction::K8sApply { manifest, kubeconfig } => {
            render_k8s_apply(out, step, idx, kubeconfig, manifest.as_str());
            Ok(())
        },
        VmAction::K8sNamespace { name, kubeconfig } => {
            let m = namespace_manifest_text(name.as_str())?;
            render_k8s_apply(out, step, idx, kubeconfig, m.as_str());
            Ok(())
        },
        VmAction::K8sDeployment {
            name,
            namespace,
            image,
            replicas,
            labels,
            container_port,
            kubeconfig,
        } => {
            let m = deployment_manifest_text(
                name.as_str(),
                namespace.as_str(),
                image.as_str(),
                *replicas,
                labels,
                *container_port,
            )?;
            render_k8s_apply(out, step, idx, kubeconfig, m.as_str());
            Ok(())
        },
        VmAction::K8sService { name, namespace, selector, port, target_port, kubeconfig } => {
            let m = service_manifest_text(
                name.as_str(),
                namespace.as_str(),
                selector,
                *port,
                *target_port,
            )?;
            render_k8s_apply(out, step, idx, kubeconfig, m.as_str());
            Ok(())
        },
    }
}

fn render_step_header(out: &mut String, vm: &str, step: &str, hidden: bool)
    ensures
        final(out)@ == old(out)@ + step_header(vm@, step@, hidden),
{
    push_str(out, "#!/usr/bin/env bash\n");
    push_str(out, "set -euo pipefail\n");
    if hidden {
        push_str(out, "trap 'rm -f -- \"$0\"' EXIT\n");
        push_str(out, "exec >/dev/null 2>&1\n");
    } else {
        push_str(out, "LOG_DIR=/var/log/intar\n");
        push_str(out, "mkdir -p \"$LOG_DIR\"\n");
        push_str(out, "exec >\"$LOG_DIR/step-");
        push_str(out, vm);
        push_str(out, "-");
        push_str(out, step);
        push_str(out, ".log\" 2>&1\n");
        push_str(out, "echo \"[intar] step ");
        push_str(out, vm);
        push_str(out, "/");
        push_str(out, step);
        push_str(out, " starting\"\n");
    }
    assert(out@ =~= old(out)@ + step_header(vm@, step@, hidden));
}

fn render_step_footer(out: &mut String, vm: &str, step: &str, hidden: bool)
    ensures
        final(out)@ == old(out)@ + step_footer(vm@, step@, hidden),
{
    if !hidden {
        push_str(out, "echo \"[intar] step ");
        push_str(out, vm);
        push_str(out, "/");
        push_str(out, step);
        push_str(out, " complete\"\n");
    }
    assert(out@ =~= old(out)@ + step_footer(vm@, step@, hidden));
}

/// Render the whole script of `step`.
fn render_step_script(vm: &str, step_slug: &str, step: &VmStep, hidden: bool) -> (r: Result<
    String,
    VmError,
>)
    ensures
        r matches Ok(s) && s@ == step_script(vm@, step_slug@, step.actions@, hidden),
{
    let mut out = String::new();
    render_step_header(&mut out, vm, step_slug, hidden);
    let ghost start = out@;
    let mut i: usize = 0;
    while i < step.actions.len()
        invariant
            i <= step.actions@.len(),
            out@ == start + actions_text(step_slug@, step.actions@.subrange(0, i as int)),
        decreases step.actions@.len() - i,
    {
        render_action(&mut out, step_slug, i, &step.actions[i])?;
        proof {
            let pre = step.actions@.subrange(0, i as int + 1);
            assert(pre.drop_last() =~= step.actions@.subrange(0, i as int));
            assert(out@ =~= start + actions_text(step_slug@, pre));
        }
        i += 1;
    }
    assert(step.actions@.subrange(0, step.actions@.len() as int) =~= step.actions@);
    render_step_footer(&mut out, vm, step_slug, hidden);
    assert(out@ =~= step_script(vm@, step_slug@, step.actions@, hidden));
    Ok(out)
}

fn step_path_text(vm: &str, step: &str, hidden: bool) -> (r: String)
    ensures
        r@ == step_script_path(vm@, step@, hidden),
{
    let mut out = String::new();
    if hidden {
        push_str(&mut out, "/run/intar-step-");
    } else {
        push_str(&mut out, "/usr/local/bin/intar-step-");
    }
    push_str(&mut out, vm);
    push_str(&mut out, "-");
    push_str(&mut out, step);
    push_str(&mut out, ".sh");
    assert(out@ =~= step_script_path(vm@, step@, hidden));
    out
}

fn step_runcmd_text(vm: &str, step: &str, hidden: bool, path: &str) -> (r: String)
    requires
        path@ == step_script_path(vm@, step@, hidden),
    ensures
        r@ == step_runcmd_line(vm@, step@, hidden),
{
    let mut out = String::new();
    if hidden {
        push_str(&mut out, "bash ");
    } else {
        push_str(&mut out, "cloud-init-per once intar-step-");
        push_str(&mut out, vm);
        push_str(&mut out, "-");
        push_str(&mut out, step);
        push_str(&mut out, " ");
    }
    push_str(&mut out, path);
    assert(out@ =~= step_runcmd_line(vm@, step@, hidden));
    out
}

/// Add `line` to `runcmd` on a line of its own.
fn append_runcmd_line(runcmd: &mut String, line: &str)
    ensures
        final(runcmd)@ == runcmd_appended(old(runcmd)@, line@),
{
    let n = runcmd.as_str().unicode_len();
    if n > 0 && !ends_with_newline(runcmd.as_str()) {
        push_char(runcmd, '\n');
    }
    push_str(runcmd, line);
    push_str(runcmd, "\n");
    assert(runcmd@ =~= runcmd_appended(old(runcmd)@, line@));
}

pub open spec fn runcmd_or_empty(r: Option<String>) -> Seq<char> {
    match r {
        Some(s) => s@,
        None => Seq::empty(),
    }
}

/// `after` is `before` with the steps of the VM named `vm` compiled in: one
/// script file per step appended in step order, and one runcmd line per step
/// that runs it. Without steps nothing changes.
pub open spec fn steps_applied(
    vm: Seq<char>,
    steps: Seq<VmStep>,
    before: CloudInitConfig,
    after: CloudInitConfig,
) -> bool {
    &&& after.packages == before.packages
    &&& after.network_config == before.network_config
    &&& after.write_files@.len() == before.write_files@.len() + steps.len()
    &&& forall|i: int|
        0 <= i < before.write_files@.len() ==> after.write_files@[i] == before.write_files@[i]
    &&& forall|k: int|
        0 <= k < steps.len() ==> step_file_ok(
            slug_of(vm),
            #[trigger] steps[k],
            after.write_files@[before.write_files@.len() + k],
        )
    &&& if steps.len() > 0 {
        after.runcmd matches Some(rc) && rc@ == runcmd_with_steps(
            runcmd_or_empty(before.runcmd),
            slug_of(vm),
            steps,
        )
    } else {
        after.runcmd == before.runcmd
    }
}

/// Compile each step of the VM named `vm_name` into a script that cloud-init
/// writes, and a runcmd line that runs it.
///
/// Each step adds one file, in step order, after the existing ones; its text
/// holds the rendering of every action in declaration order. Hidden steps
/// (names holding `break`) are written under `/run`, delete themselves and
/// discard their output; the others live under `/usr/local/bin`, log to
/// `/var/log/intar` and run once through `cloud-init-per`. Without steps the
/// configuration is left as it is. It always succeeds.
pub fn apply_vm_steps_to_cloud_init(
    vm_name: &str,
    steps: &Vec<VmStep>,
    config: &mut CloudInitConfig,
) -> (r: Result<(), VmError>)
    ensures
        r is Ok,
        steps@.len() == 0 ==> *final(config) == *old(config),
        steps_applied(vm_name@, steps@, *old(config), *final(config)),
{
    if steps.len() == 0 {
        return Ok(());
    }
    let mut runcmd = match &config.runcmd {
        Some(r) => r.clone(),
        None => String::new(),
    };
    let vm_slug = slugify(vm_name);
    let ghost n0 = old(config).write_files@.len();
    let mut i: usize = 0;
    while i < steps.len()
        invariant
            vm_slug@ == slug_of(vm_name@),
            i <= steps@.len(),
            config.packages == old(config).packages,
            config.network_config == old(config).network_config,
            config.runcmd == old(config).runcmd,
            n0 == old(config).write_files@.len(),
            config.write_files@.len() == n0 + i,
            forall|j: int| 0 <= j < n0 ==> config.write_files@[j] == old(config).write_files@[j],
            forall|k: int|
                0 <= k < i ==> step_file_ok(
                    vm_slug@,
                    #[trigger] steps@[k],
                    config.write_files@[n0 + k],
                ),
            runcmd@ == runcmd_with_steps(
                runcmd_or_empty(old(config).runcmd),
                vm_slug@,
                steps@.subrange(0, i as int),
            ),
        decreases steps@.len() - i,
    {
        let step = &steps[i];
        let step_slug = slugify(step.name.as_str());
        let hidden = is_hidden_step(step.name.as_str());
        let path = step_path_text(vm_slug.as_str(), step_slug.as_str(), hidden);
        let script = render_step_script(vm_slug.as_str(), step_slug.as_str(), step, hidden)?;
        let line = step_runcmd_text(vm_slug.as_str(), step_slug.as_str(), hidden, path.as_str());
        config.write_files.push(
            WriteFile { path, content: script, permissions: Some(String::from_str("0755")) },
        );
        append_runcmd_line(&mut runcmd, line.as_str());
        proof {
            let pre = steps@.subrange(0, i as int + 1);
            assert(pre.drop_last() =~= steps@.subrange(0, i as int));
            assert(pre.last() == steps@[i as int]);
            assert(step_file_ok(vm_slug@, steps@[i as int], config.write_files@[n0 + i]));
        }
        i += 1;
    }
    assert(steps@.subrange(0, steps@.len() as int) =~= steps@);
    config.runcmd = Some(runcmd);
    Ok(())
}

} // verus!

verus! {

/// The layout of a compiled step: a hidden step's script lives under `/run`,
/// starts by arranging to delete itself and silencing its output, and runs
/// directly; any other step's script lives under `/usr/local/bin`, logs to
/// `/var/log/intar`, and runs once through `cloud-init-per`. Between header
/// and footer the script holds the text of each action, in declaration order.
pub proof fn step_script_layout(vm: Seq<char>, s: VmStep, f: WriteFile)
    requires
        step_file_ok(vm, s, f),
    ensures
        ({
            let step = slug_of(s.name@);
            if hidden_step_name(s.name@) {
                &&& f.path@ == "/run/intar-step-"@ + vm + "-"@ + step + ".sh"@
                &&& f.content@ == "#!/usr/bin/env bash\n"@ + "set -euo pipefail\n"@
                    + "trap 'rm -f -- \"$0\"' EXIT\n"@ + "exec >/dev/null 2>&1\n"@ + actions_text(
                    step,
                    s.actions@,
                )
                &&& step_runcmd_line(vm, step, true) == "bash "@ + f.path@
            } else {
                &&& f.path@ == "/usr/local/bin/intar-step-"@ + vm + "-"@ + step + ".sh"@
                &&& f.content@ == step_header(vm, step, false) + actions_text(step, s.actions@)
                    + "echo \"[intar] step "@ + vm + "/"@ + step + " complete\"\n"@
                &&& step_runcmd_line(vm, step, false) == "cloud-init-per once intar-step-"@ + vm
                    + "-"@ + step + " "@ + f.path@
            }
        }),
{
    let step = slug_of(s.name@);
    if hidden_step_name(s.name@) {
        assert(f.content@ =~= "#!/usr/bin/env bash\n"@ + "set -euo pipefail\n"@
            + "trap 'rm -f -- \"$0\"' EXIT\n"@ + "exec >/dev/null 2>&1\n"@ + actions_text(
            step,
            s.actions@,
        ));
    }
}

/// Each action adds its own text after those before it: the text of the
/// actions of a step is that of all but the last, then the last one's.
pub proof fn actions_in_declaration_order(step: Seq<char>, actions: Seq<VmAction>, k: int)
    requires
        0 <= k < actions.len(),
    ensures
        actions_text(step, actions.subrange(0, k + 1)) == actions_text(step, actions.subrange(0, k))
            + action_text(step, k as nat, actions[k]),
{
    let pre = actions.subrange(0, k + 1);
    assert(pre.drop_last() =~= actions.subrange(0, k));
}

} // verus!

verus! {

/// The lines of a `file_replace` block before the replacing line: the JSON
/// literals of path, pattern and replacement, and reading the file.
pub open spec fn file_replace_head(path: Seq<char>, pattern: Seq<char>, replacement: Seq<char>) -> Seq<char> {
    "python3 - <<'PY'\n"@ + "from pathlib import Path\n"@ + "import re\n"@ + "path = "@
        + json_string_literal(path) + "\n"@ + "pattern = "@ + json_string_literal(pattern)
        + "\n"@ + "replacement = "@ + json_string_literal(replacement) + "\n"@
        + "data = Path(path).read_text(encoding='utf-8')\n"@
}

/// A `file_replace` block with `regex` set treats the pattern as a Python
/// multi-line regular expression; without it, as a literal substring. Either
/// way exactly one replacing line stands between reading and writing the file.
pub proof fn file_replace_modes(path: Seq<char>, pattern: Seq<char>, replacement: Seq<char>)
    ensures
        file_replace_text(path, pattern, replacement, true) == file_replace_head(
            path,
            pattern,
            replacement,
        ) + "new = re.sub(pattern, replacement, data, flags=re.MULTILINE)\n"@
            + "Path(path).write_text(new, encoding='utf-8')\n"@ + "PY\n"@,
        file_replace_text(path, pattern, replacement, false) == file_replace_head(
            path,
            pattern,
            replacement,
        ) + "new = data.replace(pattern, replacement)\n"@
            + "Path(path).write_text(new, encoding='utf-8')\n"@ + "PY\n"@,
{
}

} // verus!
