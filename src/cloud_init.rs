//! Rendering of the cloud-init `user-data` and `meta-data` documents.
use vstd::prelude::*;
use crate::line_capture::{trim, trimmed};
use crate::scenario::{CloudInitConfig, WriteFile};
use crate::text::{push_str, string_from_chars};

verus! {

/// Standard base64, with padding, of `b`.
pub uninterp spec fn base64_encoded(b: Seq<u8>) -> Seq<char>;

/// Relies on base64's `STANDARD` engine `encode`: the padded standard base64
/// text of the bytes.
#[verifier::external_body]
fn encode_base64(b: &[u8]) -> (r: String)
    ensures
        r@ == base64_encoded(b@),
{
    base64::Engine::encode(&base64::engine::general_purpose::STANDARD, b)
}

/// Relies on `str::chars`: the characters of the text, in order.
#[verifier::external_body]
pub(crate) fn chars_of(s: &str) -> (r: Vec<char>)
    ensures
        r@ == s@,
{
    s.chars().collect()
}

/// `s` without one trailing carriage return.
pub open spec fn strip_cr(s: Seq<char>) -> Seq<char> {
    if s.len() > 0 && s.last() == '\r' {
        s.drop_last()
    } else {
        s
    }
}

/// Scanning `s` for lines: the lines ended by a `\n` so far (without the
/// `\n` and a `\r` before it) and the unfinished last line.
pub open spec fn split_scan(s: Seq<char>) -> (Seq<Seq<char>>, Seq<char>)
    decreases s.len(),
{
    if s.len() == 0 {
        (Seq::empty(), Seq::empty())
    } else {
        let (ls, cur) = split_scan(s.drop_last());
        if s.last() == '\n' {
            (ls.push(strip_cr(cur)), Seq::empty())
        } else {
            (ls, cur.push(s.last()))
        }
    }
}

/// The lines of `s` in the sense of `str::lines`: split at each `\n`, a `\r`
/// before it dropped, and no empty line after a final `\n`.
pub open spec fn lines_of(s: Seq<char>) -> Seq<Seq<char>> {
    let (ls, cur) = split_scan(s);
    if cur.len() > 0 {
        ls.push(cur)
    } else {
        ls
    }
}

/// The lines of `s`.
pub fn split_lines(s: &str) -> (r: Vec<Vec<char>>)
    ensures
        r@.map_values(|l: Vec<char>| l@) == lines_of(s@),
{
    let cs = chars_of(s);
    let mut out: Vec<Vec<char>> = Vec::new();
    let mut cur: Vec<char> = Vec::new();
    let mut i: usize = 0;
    while i < cs.len()
        invariant
            i <= cs@.len(),
            split_scan(cs@.subrange(0, i as int)) == (out@.map_values(|l: Vec<char>| l@), cur@),
        decreases cs@.len() - i,
    {
        let c = cs[i];
        proof {
            let pre = cs@.subrange(0, i as int + 1);
            assert(pre.drop_last() =~= cs@.subrange(0, i as int));
            assert(pre.last() == c);
        }
        if c == '\n' {
            let ghost before = out@;
            let mut line = cur;
            let n = line.len();
            if n > 0 && line[n - 1] == '\r' {
                line.pop();
            }
            out.push(line);
            cur = Vec::new();
            assert(out@.map_values(|l: Vec<char>| l@) =~= before.map_values(|l: Vec<char>| l@).push(
                out@.last()@,
            ));
        } else {
            cur.push(c);
        }
        i += 1;
    }
    assert(cs@.subrange(0, cs@.len() as int) =~= cs@);
    if cur.len() > 0 {
        let ghost before = out@;
        out.push(cur);
        assert(out@.map_values(|l: Vec<char>| l@) =~= before.map_values(|l: Vec<char>| l@).push(
            out@.last()@,
        ));
    }
    out
}

} // verus!

verus! {

/// The user account block, up to the list of authorised keys.
pub const USERS_BLOCK: &'static str = "users:\n  - name: user\n    sudo: ALL=(ALL) NOPASSWD:ALL\n    shell: /usr/local/bin/intar-shell\n    ssh_authorized_keys:\n";

/// The head of `write_files` and of its first entry, the agent binary, up to
/// its content.
pub const AGENT_FILE_HEAD: &'static str = "write_files:\n  - path: /usr/local/bin/intar-agent\n    permissions: '0755'\n    encoding: base64\n    content: ";

/// The login-shell wrapper that records SSH sessions and commands.
pub const SHELL_FILE_BLOCK: &'static str = "  - path: /usr/local/bin/intar-shell\n    permissions: '0755'\n    content: |\n      #!/usr/bin/env bash\n      set -euo pipefail\n      REAL_SHELL=/bin/bash\n      AGENT=/usr/local/bin/intar-agent\n      \n      if [ \"${1:-}\" = \"-c\" ]; then\n        cmd=\"${2:-}\"\n        exec \"$AGENT\" record-command \"$REAL_SHELL\" \"$cmd\"\n      fi\n      \n      exec \"$AGENT\" record-ssh \"$REAL_SHELL\"\n";

/// The systemd unit of the guest agent.
pub const SERVICE_FILE_BLOCK: &'static str = "  - path: /etc/systemd/system/intar-agent.service\n    content: |\n      [Unit]\n      Description=Intar Probe Agent\n      After=multi-user.target\n      \n      [Service]\n      Type=simple\n      ExecStart=/usr/local/bin/intar-agent\n      RuntimeDirectory=intar\n      RuntimeDirectoryMode=0755\n      Restart=always\n      RestartSec=1\n      \n      [Install]\n      WantedBy=multi-user.target\n";

/// The fixed `runcmd` entries: reload units, register the wrapper shell,
/// start the agent and mask noisy timers.
pub const RUNCMD_BLOCK: &'static str = "runcmd:\n  - systemctl daemon-reload\n  - grep -qxF /usr/local/bin/intar-shell /etc/shells || echo /usr/local/bin/intar-shell >> /etc/shells\n  - systemctl enable intar-agent\n  - systemctl start intar-agent\n  - |\n      if command -v systemctl >/dev/null 2>&1; then\n        for unit in apt-daily.service apt-daily.timer apt-daily-upgrade.service apt-daily-upgrade.timer motd-news.service motd-news.timer unattended-upgrades.service man-db.service man-db.timer fstrim.service fstrim.timer e2scrub_all.service e2scrub_all.timer ua-timer.service ua-timer.timer snapd.service snapd.socket snapd.seeded.service snapd.autoimport.service;\n        do\n          systemctl mask \"$unit\" || true\n        done\n      fi\n";

pub open spec fn packages_text(pkgs: Seq<String>) -> Seq<char>
    decreases pkgs.len(),
{
    if pkgs.len() == 0 {
        Seq::empty()
    } else {
        packages_text(pkgs.drop_last()) + "  - "@ + pkgs.last()@ + "\n"@
    }
}

pub open spec fn indented_lines(lines: Seq<Seq<char>>) -> Seq<char>
    decreases lines.len(),
{
    if lines.len() == 0 {
        Seq::empty()
    } else {
        indented_lines(lines.drop_last()) + "      "@ + lines.last() + "\n"@
    }
}

pub open spec fn file_entry_text(f: WriteFile) -> Seq<char> {
    "  - path: "@ + f.path@ + "\n"@ + match f.permissions {
        Some(p) => "    permissions: '"@ + p@ + "'\n"@,
        None => Seq::empty(),
    } + "    content: |\n"@ + indented_lines(lines_of(f.content@))
}

pub open spec fn files_text(files: Seq<WriteFile>) -> Seq<char>
    decreases files.len(),
{
    if files.len() == 0 {
        Seq::empty()
    } else {
        files_text(files.drop_last()) + file_entry_text(files.last())
    }
}

/// The user's runcmd: each non-blank line, trimmed, as one entry.
pub open spec fn runcmd_entries(lines: Seq<Seq<char>>) -> Seq<char>
    decreases lines.len(),
{
    if lines.len() == 0 {
        Seq::empty()
    } else {
        let t = trim(lines.last());
        runcmd_entries(lines.drop_last()) + if t.len() > 0 {
            "  - "@ + t + "\n"@
        } else {
            Seq::empty()
        }
    }
}

/// The whole `user-data` document.
pub open spec fn user_data_text(
    public_key: Seq<char>,
    agent_base64: Seq<char>,
    config: CloudInitConfig,
    hostname: Seq<char>,
) -> Seq<char> {
    "#cloud-config\n"@ + "hostname: "@ + hostname + "\n"@ + "package_update: false\n"@
        + "package_upgrade: false\n"@ + USERS_BLOCK@ + "      - "@ + public_key + "\n"@ + (if config.packages@.len()
        > 0 {
        "packages:\n"@ + packages_text(config.packages@)
    } else {
        Seq::empty()
    }) + AGENT_FILE_HEAD@ + agent_base64 + "\n"@ + SHELL_FILE_BLOCK@ + SERVICE_FILE_BLOCK@
        + files_text(config.write_files@) + RUNCMD_BLOCK@ + match config.runcmd {
        Some(r) => runcmd_entries(lines_of(r@)),
        None => Seq::empty(),
    }
}

} // verus!

verus! {

/// Renders the cloud-init documents of the guests of one run.
#[derive(Debug, Clone)]
pub struct CloudInitGenerator {
    pub ssh_public_key: String,
    pub agent_binary: Vec<u8>,
}

fn push_chars(out: &mut String, v: &Vec<char>)
    ensures
        final(out)@ == old(out)@ + v@,
{
    let s = string_from_chars(v);
    push_str(out, s.as_str());
}

fn push_packages(out: &mut String, pkgs: &Vec<String>)
    ensures
        final(out)@ == old(out)@ + packages_text(pkgs@),
{
    let mut i: usize = 0;
    while i < pkgs.len()
        invariant
            i <= pkgs@.len(),
            out@ == old(out)@ + packages_text(pkgs@.subrange(0, i as int)),
        decreases pkgs@.len() - i,
    {
        let ghost before = out@;
        push_str(out, "  - ");
        push_str(out, pkgs[i].as_str());
        push_str(out, "\n");
        proof {
            let pre = pkgs@.subrange(0, i as int + 1);
            assert(pre.drop_last() =~= pkgs@.subrange(0, i as int));
            assert(out@ =~= old(out)@ + packages_text(pre));
        }
        i += 1;
    }
    assert(pkgs@.subrange(0, pkgs@.len() as int) =~= pkgs@);
}

fn push_indented(out: &mut String, lines: &Vec<Vec<char>>)
    ensures
        final(out)@ == old(out)@ + indented_lines(lines@.map_values(|l: Vec<char>| l@)),
{
    let ghost views = lines@.map_values(|l: Vec<char>| l@);
    let mut i: usize = 0;
    while i < lines.len()
        invariant
            i <= lines@.len(),
            views == lines@.map_values(|l: Vec<char>| l@),
            out@ == old(out)@ + indented_lines(views.subrange(0, i as int)),
        decreases lines@.len() - i,
    {
        push_str(out, "      ");
        push_chars(out, &lines[i]);
        push_str(out, "\n");
        proof {
            let pre = views.subrange(0, i as int + 1);
            assert(pre.drop_last() =~= views.subrange(0, i as int));
            assert(pre.last() == lines@[i as int]@);
            assert(out@ =~= old(out)@ + indented_lines(pre));
        }
        i += 1;
    }
    assert(views.subrange(0, lines@.len() as int) =~= views);
}

fn push_files(out: &mut String, files: &Vec<WriteFile>)
    ensures
        final(out)@ == old(out)@ + files_text(files@),
{
    let mut i: usize = 0;
    while i < files.len()
        invariant
            i <= files@.len(),
            out@ == old(out)@ + files_text(files@.subrange(0, i as int)),
        decreases files@.len() - i,
    {
        let ghost before = out@;
        let f = &files[i];
        push_str(out, "  - path: ");
        push_str(out, f.path.as_str());
        push_str(out, "\n");
        match &f.permissions {
            Some(p) => {
                push_str(out, "    permissions: '");
                push_str(out, p.as_str());
                push_str(out, "'\n");
            },
            None => {},
        }
        push_str(out, "    content: |\n");
        let lines = split_lines(f.content.as_str());
        push_indented(out, &lines);
        proof {
            let pre = files@.subrange(0, i as int + 1);
            assert(pre.drop_last() =~= files@.subrange(0, i as int));
            assert(pre.last() == *f);
            assert(out@ =~= before + file_entry_text(*f));
        }
        i += 1;
    }
    assert(files@.subrange(0, files@.len() as int) =~= files@);
}

fn push_runcmd_entries(out: &mut String, runcmd: &str)
    ensures
        final(out)@ == old(out)@ + runcmd_entries(lines_of(runcmd@)),
{
    let lines = split_lines(runcmd);
    let ghost views = lines@.map_values(|l: Vec<char>| l@);
    let mut i: usize = 0;
    while i < lines.len()
        invariant
            i <= lines@.len(),
            views == lines@.map_values(|l: Vec<char>| l@),
            views == lines_of(runcmd@),
            out@ == old(out)@ + runcmd_entries(views.subrange(0, i as int)),
        decreases lines@.len() - i,
    {
        let ghost before = out@;
        let t = trimmed(&lines[i]);
        if t.len() > 0 {
            push_str(out, "  - ");
            push_chars(out, &t);
            push_str(out, "\n");
        }
        proof {
            let pre = views.subrange(0, i as int + 1);
            assert(pre.drop_last() =~= views.subrange(0, i as int));
            assert(pre.last() == lines@[i as int]@);
            assert(out@ =~= old(out)@ + runcmd_entries(pre));
        }
        i += 1;
    }
    assert(views.subrange(0, lines@.len() as int) =~= views);
}

impl CloudInitGenerator {
    pub fn new(ssh_public_key: String, agent_binary: Vec<u8>) -> (r: Self)
        ensures
            r.ssh_public_key@ == ssh_public_key@,
            r.agent_binary@ == agent_binary@,
    {
        CloudInitGenerator { ssh_public_key, agent_binary }
    }

    /// `instance-id: <id>` and `local-hostname: <hostname>`, one per line.
    pub fn generate_meta_data(&self, instance_id: &str, hostname: &str) -> (r: String)
        ensures
            r@ == "instance-id: "@ + instance_id@ + "\nlocal-hostname: "@ + hostname@ + "\n"@,
    {
        let mut s = String::from_str("instance-id: ");
        push_str(&mut s, instance_id);
        push_str(&mut s, "\nlocal-hostname: ");
        push_str(&mut s, hostname);
        push_str(&mut s, "\n");
        assert(s@ =~= "instance-id: "@ + instance_id@ + "\nlocal-hostname: "@ + hostname@ + "\n"@);
        s
    }

    /// The `user-data` document: host name, the `user` account with the run's
    /// key, packages, the agent binary, wrapper shell and agent unit, the
    /// scenario's files, the fixed runcmd entries and then the scenario's.
    pub fn generate_user_data(&self, config: &CloudInitConfig, hostname: &str) -> (r: String)
        ensures
            r@ == user_data_text(
                self.ssh_public_key@,
                base64_encoded(self.agent_binary@),
                *config,
                hostname@,
            ),
    {
        let agent = encode_base64(self.agent_binary.as_slice());
        let mut s = String::from_str("#cloud-config\n");
        push_str(&mut s, "hostname: ");
        push_str(&mut s, hostname);
        push_str(&mut s, "\n");
        push_str(&mut s, "package_update: false\n");
        push_str(&mut s, "package_upgrade: false\n");
        push_str(&mut s, USERS_BLOCK);
        push_str(&mut s, "      - ");
        push_str(&mut s, self.ssh_public_key.as_str());
        push_str(&mut s, "\n");
        let ghost a = s@;
        if config.packages.len() > 0 {
            push_str(&mut s, "packages:\n");
            push_packages(&mut s, &config.packages);
        }
        let ghost b = s@;
        push_str(&mut s, AGENT_FILE_HEAD);
        push_str(&mut s, agent.as_str());
        push_str(&mut s, "\n");
        push_str(&mut s, SHELL_FILE_BLOCK);
        push_str(&mut s, SERVICE_FILE_BLOCK);
        push_files(&mut s, &config.write_files);
        push_str(&mut s, RUNCMD_BLOCK);
        let ghost c = s@;
        match &config.runcmd {
            Some(r) => push_runcmd_entries(&mut s, r.as_str()),
            None => {},
        }
        assert(s@ =~= user_data_text(
            self.ssh_public_key@,
            base64_encoded(self.agent_binary@),
            *config,
            hostname@,
        ));
        s
    }
}

} // verus!

verus! {

/// The tools that can write a seed ISO, in the order they are tried.
#[derive(Debug, Clone, Copy, PartialEq, Eq, Structural)]
pub enum IsoTool {
    CloudLocalds,
    Mkisofs,
    Genisoimage,
    Xorriso,
    Hdiutil,
}

/// The message when no tool could write the seed ISO.
pub const NO_ISO_TOOL_MESSAGE: &'static str = "No ISO creation tool available. Install one of: cloud-localds, mkisofs (brew install cdrtools), genisoimage, xorriso, or hdiutil";

pub open spec fn views_of(v: Seq<String>) -> Seq<Seq<char>> {
    v.map_values(|s: String| s@)
}

fn push_arg(args: &mut Vec<String>, s: &str)
    ensures
        views_of(final(args)@) == views_of(old(args)@).push(s@),
{
    args.push(String::from_str(s));
    assert(views_of(args@) =~= views_of(old(args)@).push(s@));
}

/// The arguments `mkisofs`-style tools take: output, volume id `cidata`,
/// Joliet and Rock Ridge, then the documents.
pub open spec fn mkisofs_args(
    output: Seq<char>,
    user_data: Seq<char>,
    meta_data: Seq<char>,
    network_config: Option<Seq<char>>,
) -> Seq<Seq<char>> {
    seq!["-output"@, output, "-volid"@, "cidata"@, "-joliet"@, "-rock"@, user_data, meta_data]
        + (match network_config {
        Some(n) => seq![n],
        None => Seq::empty(),
    })
}

pub open spec fn iso_tool_args_spec(
    tool: IsoTool,
    output: Seq<char>,
    user_data: Seq<char>,
    meta_data: Seq<char>,
    network_config: Option<Seq<char>>,
    staging_dir: Seq<char>,
) -> Seq<Seq<char>> {
    match tool {
        IsoTool::CloudLocalds => (match network_config {
            Some(n) => seq!["--network-config="@ + n],
            None => Seq::empty(),
        }) + seq![output, user_data, meta_data],
        IsoTool::Mkisofs | IsoTool::Genisoimage => mkisofs_args(
            output,
            user_data,
            meta_data,
            network_config,
        ),
        IsoTool::Xorriso => seq!["-as"@, "mkisofs"@] + mkisofs_args(
            output,
            user_data,
            meta_data,
            network_config,
        ),
        IsoTool::Hdiutil => seq!["makehybrid"@, "-iso"@, "-joliet"@, "-o"@, output, staging_dir],
    }
}

impl IsoTool {
    /// The tool tried first.
    pub fn first() -> (r: IsoTool)
        ensures
            r == IsoTool::CloudLocalds,
    {
        IsoTool::CloudLocalds
    }

    /// The tool tried after this one fails, if any.
    pub fn next(&self) -> (r: Option<IsoTool>)
        ensures
            r == match *self {
                IsoTool::CloudLocalds => Some(IsoTool::Mkisofs),
                IsoTool::Mkisofs => Some(IsoTool::Genisoimage),
                IsoTool::Genisoimage => Some(IsoTool::Xorriso),
                IsoTool::Xorriso => Some(IsoTool::Hdiutil),
                IsoTool::Hdiutil => None,
            },
    {
        match self {
            IsoTool::CloudLocalds => Some(IsoTool::Mkisofs),
            IsoTool::Mkisofs => Some(IsoTool::Genisoimage),
            IsoTool::Genisoimage => Some(IsoTool::Xorriso),
            IsoTool::Xorriso => Some(IsoTool::Hdiutil),
            IsoTool::Hdiutil => None,
        }
    }

    /// The program to run.
    pub fn program(&self) -> (r: &'static str)
        ensures
            r@ == match *self {
                IsoTool::CloudLocalds => "cloud-localds"@,
                IsoTool::Mkisofs => "mkisofs"@,
                IsoTool::Genisoimage => "genisoimage"@,
                IsoTool::Xorriso => "xorriso"@,
                IsoTool::Hdiutil => "hdiutil"@,
            },
    {
        match self {
            IsoTool::CloudLocalds => "cloud-localds",
            IsoTool::Mkisofs => "mkisofs",
            IsoTool::Genisoimage => "genisoimage",
            IsoTool::Xorriso => "xorriso",
            IsoTool::Hdiutil => "hdiutil",
        }
    }

    /// The arguments that write the seed ISO at `output` from the documents.
    /// `hdiutil` instead takes a staging directory named `cidata` holding
    /// copies of them.
    pub fn args(
        &self,
        output: &str,
        user_data: &str,
        meta_data: &str,
        network_config: Option<&str>,
        staging_dir: &str,
    ) -> (r: Vec<String>)
        ensures
            views_of(r@) == iso_tool_args_spec(
                *self,
                output@,
                user_data@,
                meta_data@,
                match network_config {
                    Some(n) => Some(n@),
                    None => None,
                },
                staging_dir@,
            ),
    {
        let mut a: Vec<String> = Vec::new();
        let ghost nc = match network_config {
            Some(n) => Some(n@),
            None => None::<Seq<char>>,
        };
        match self {
            IsoTool::CloudLocalds => {
                match network_config {
                    Some(n) => {
                        let mut s = String::from_str("--network-config=");
                        push_str(&mut s, n);
                        a.push(s);
                    },
                    None => {},
                }
                push_arg(&mut a, output);
                push_arg(&mut a, user_data);
                push_arg(&mut a, meta_data);
            },
            IsoTool::Hdiutil => {
                push_arg(&mut a, "makehybrid");
                push_arg(&mut a, "-iso");
                push_arg(&mut a, "-joliet");
                push_arg(&mut a, "-o");
                push_arg(&mut a, output);
                push_arg(&mut a, staging_dir);
            },
            _ => {
                if *self == IsoTool::Xorriso {
                    push_arg(&mut a, "-as");
                    push_arg(&mut a, "mkisofs");
                }
                push_arg(&mut a, "-output");
                push_arg(&mut a, output);
                push_arg(&mut a, "-volid");
                push_arg(&mut a, "cidata");
                push_arg(&mut a, "-joliet");
                push_arg(&mut a, "-rock");
                push_arg(&mut a, user_data);
                push_arg(&mut a, meta_data);
                match network_config {
                    Some(n) => push_arg(&mut a, n),
                    None => {},
                }
            },
        }
        assert(views_of(a@) =~= iso_tool_args_spec(
            *self,
            output@,
            user_data@,
            meta_data@,
            nc,
            staging_dir@,
        ));
        a
    }
}

} // verus!
