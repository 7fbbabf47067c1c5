//! The files a base image's root filesystem gets so that VMs booted from
//! it configure their network, install their SSH key, report that they have
//! booted and (when given) run the management agent.

use crate::firecracker::string_of;
use crate::io_error::io_error_text;
use crate::paths::pushed_path;
use crate::text::{push_str, string_from_chars};
use vstd::prelude::*;

verus! {

/// The guest script that configures its network: the fixed guest addresses
/// on `eth0` and the default routes through the host end of the TAP link.
pub const FCNET_SETUP_SCRIPT: &'static str = "#!/usr/bin/env bash\n\nmain() {\n    ip addr add 192.168.1.2/30 dev eth0\n    ip addr add fd00:fe11:deed:1337::2/126 dev eth0\n\n    ip link set eth0 up\n\n    ip route add default via 192.168.1.1 dev eth0\n    ip route add default via fd00:fe11:deed:1337::1 dev eth0\n}\nmain\n";

/// The systemd unit that runs the network script.
pub const FCNET_SERVICE: &'static str = "[Service]\nType=oneshot\nExecStart=/usr/local/bin/fcnet-setup.sh\n[Install]\nWantedBy=sshd.service\n";

/// The guest script that tells the host the VM has booted, by calling the
/// URL template read from the kernel command line with the VM id filled in.
pub const NOTIFY_READY_SCRIPT: &'static str = "#!/bin/sh\n# This script reads chelsea_notify_boot_url_template from /proc/cmdline, which should be a URL\n# containing the template string \":vm_id\" (without quotes).\n# \":vm_id\" will be substituted out for the VM ID (from cmdline or /etc/vm_id)\nset -eu\n\n# Extract chelsea_vm_id from /proc/cmdline and write to /etc/vm_id if not present\nif [ ! -f /etc/vm_id ]; then\n    chelsea_vm_id=$(cat /proc/cmdline | grep -oE 'chelsea_vm_id=[^ ]+' | cut -d= -f2- || true)\n    if [ -n \"${chelsea_vm_id}\" ]; then\n        echo \"${chelsea_vm_id}\" > /etc/vm_id\n        echo \"Wrote VM ID to /etc/vm_id from kernel cmdline\"\n    else\n        echo \"chelsea_vm_id not found in /proc/cmdline and /etc/vm_id does not exist\" >&2\n        exit 1\n    fi\nfi\n\n# Extract chelsea_notify_boot_url_template from /proc/cmdline\nchelsea_notify_boot_url_template=$(cat /proc/cmdline | grep -oE 'chelsea_notify_boot_url_template=[^ ]+' | cut -d= -f2- || true)\n\nif [ -z \"${chelsea_notify_boot_url_template}\" ]; then\n    echo \"chelsea_notify_boot_url_template not found in /proc/cmdline\" >&2\n    exit 1\nfi\n\nvm_id=$(cat /etc/vm_id)\nurl=$(echo \"$chelsea_notify_boot_url_template\" | sed \"s/:vm_id/$vm_id/g\")\n\necho \"Sending ready notification to URL $url\"\n/usr/bin/curl -X POST -H \"Content-Type: application/json\" -d '{\"tag_name\" : \"ready\", \"tag_value\" : \"true\"}' \"${url}\"\n";

/// The systemd unit that runs the boot notification once the network is up.
pub const NOTIFY_READY_SERVICE: &'static str = "[Unit]\nDescription=Machine Readiness Notification\nWants=fcnet.service\nAfter=fcnet.service\n[Service]\nType=oneshot\nExecStart=/usr/local/bin/notify-ready.sh\n";

/// The systemd unit of the in-guest management agent, which listens on
/// vsock for host commands and reports readiness when it starts.
pub const CHELSEA_AGENT_SERVICE: &'static str = "[Unit]\nDescription=Chelsea In-VM Management Agent\nAfter=network.target\n[Service]\nType=simple\nExecStart=/usr/local/bin/chelsea-agent\nRestart=on-failure\nRestartSec=1\n[Install]\nWantedBy=multi-user.target\n";

/// The guest script that installs the SSH public key read from the kernel
/// command line, unless keys are already configured.
pub const SSH_SETUP_SCRIPT: &'static str = "#!/bin/sh\n# This script reads chelsea_ssh_pubkey from /proc/cmdline and sets up authorized_keys.\n# The pubkey is expected to be base64-encoded (the middle part of an openssh public key).\nset -eu\n\n# Check if authorized_keys already exists with content (e.g., from commit restore)\nif [ -f /root/.ssh/authorized_keys ] && [ -s /root/.ssh/authorized_keys ]; then\n    echo \"SSH authorized_keys already configured, skipping\"\n    exit 0\nfi\n\n# Extract chelsea_ssh_pubkey from /proc/cmdline\nchelsea_ssh_pubkey=$(cat /proc/cmdline | grep -oE 'chelsea_ssh_pubkey=[^ ]+' | cut -d= -f2- || true)\n\nif [ -z \"${chelsea_ssh_pubkey}\" ]; then\n    echo \"chelsea_ssh_pubkey not found in /proc/cmdline\" >&2\n    exit 1\nfi\n\n# Set up .ssh directory\nmkdir -p /root/.ssh\nchmod 700 /root/.ssh\n\n# Write the public key in openssh format (assuming ed25519)\necho \"ssh-ed25519 ${chelsea_ssh_pubkey}\" > /root/.ssh/authorized_keys\nchmod 600 /root/.ssh/authorized_keys\n\necho \"SSH authorized_keys configured from kernel cmdline\"\n";

/// The systemd unit that runs the SSH key script before `sshd`.
pub const SSH_SETUP_SERVICE: &'static str = "[Unit]\nDescription=Configure SSH keys from kernel cmdline\nBefore=sshd.service\n[Service]\nType=oneshot\nExecStart=/usr/local/bin/ssh-setup.sh\nRemainAfterExit=yes\n";

/// The guest's host name file.
pub const DEFAULT_HOSTNAME: &'static str = "hdr\n";

/// The guest's DNS resolvers.
pub const RESOLV_CONF: &'static str = "nameserver 1.1.1.1\nnameserver 8.8.8.8\n";

/// A step of preparing a root filesystem, with host paths.
#[derive(Debug, Clone)]
pub enum FsStep {
    /// Create the directory (and its parents) unless it exists.
    CreateDir { path: String },
    /// Write the file.
    WriteFile { path: String, content: String },
    /// Write the file and make it executable (mode 755).
    WriteExecutable { path: String, content: String },
    /// Fail unless the file exists ("Chelsea agent binary not found at: ").
    RequireFile { path: String },
    /// Copy the file and make the copy executable (mode 755).
    CopyExecutable { from: String, to: String },
    /// Create a symbolic link at `link` pointing to `target`, unless
    /// something is already there.
    Symlink { target: String, link: String },
}

/// A step, with its paths and contents as texts.
pub enum FsStepView {
    CreateDir(Seq<char>),
    WriteFile(Seq<char>, Seq<char>),
    WriteExecutable(Seq<char>, Seq<char>),
    RequireFile(Seq<char>),
    CopyExecutable(Seq<char>, Seq<char>),
    Symlink(Seq<char>, Seq<char>),
}

impl View for FsStep {
    type V = FsStepView;

    open spec fn view(&self) -> FsStepView {
        match self {
            FsStep::CreateDir { path } => FsStepView::CreateDir(path@),
            FsStep::WriteFile { path, content } => FsStepView::WriteFile(path@, content@),
            FsStep::WriteExecutable { path, content } => FsStepView::WriteExecutable(path@, content@),
            FsStep::RequireFile { path } => FsStepView::RequireFile(path@),
            FsStep::CopyExecutable { from, to } => FsStepView::CopyExecutable(from@, to@),
            FsStep::Symlink { target, link } => FsStepView::Symlink(target@, link@),
        }
    }
}

/// The views of a list of steps.
pub open spec fn steps_view(steps: Seq<FsStep>) -> Seq<FsStepView> {
    steps.map_values(|s: FsStep| s@)
}

/// `root/rel`, as `Path::join` makes it.
pub open spec fn under(root: Seq<char>, rel: Seq<char>) -> Seq<char> {
    pushed_path(root, rel)
}

/// The steps that install the agent binary at `agent` and enable its
/// service.
pub open spec fn agent_steps(root: Seq<char>, agent: Seq<char>) -> Seq<FsStepView> {
    seq![
        FsStepView::RequireFile(agent),
        FsStepView::CopyExecutable(agent, under(root, "usr/local/bin/chelsea-agent"@)),
        FsStepView::WriteFile(
            under(root, "etc/systemd/system/chelsea-agent.service"@),
            CHELSEA_AGENT_SERVICE@,
        ),
        FsStepView::CreateDir(under(root, "etc/systemd/system/multi-user.target.wants"@)),
        FsStepView::Symlink(
            "/etc/systemd/system/chelsea-agent.service"@,
            under(
                under(root, "etc/systemd/system/multi-user.target.wants"@),
                "chelsea-agent.service"@,
            ),
        ),
    ]
}

/// The steps that prepare the root filesystem at `root`: the directories;
/// the network, boot-notification and SSH scripts with their units; the
/// agent when one is given; the links that enable the units at boot; the
/// host name and the DNS resolvers.
pub open spec fn filesystem_steps(root: Seq<char>, agent: Option<Seq<char>>) -> Seq<FsStepView> {
    let wants = under(root, "etc/systemd/system/sysinit.target.wants"@);
    seq![
        FsStepView::CreateDir(under(root, "usr/local/bin"@)),
        FsStepView::CreateDir(under(root, "etc/systemd/system"@)),
        FsStepView::CreateDir(wants),
        FsStepView::WriteExecutable(under(root, "usr/local/bin/fcnet-setup.sh"@), FCNET_SETUP_SCRIPT@),
        FsStepView::WriteFile(under(root, "etc/systemd/system/fcnet.service"@), FCNET_SERVICE@),
        FsStepView::WriteExecutable(
            under(root, "usr/local/bin/notify-ready.sh"@),
            NOTIFY_READY_SCRIPT@,
        ),
        FsStepView::WriteFile(
            under(root, "etc/systemd/system/notify-ready.service"@),
            NOTIFY_READY_SERVICE@,
        ),
        FsStepView::WriteExecutable(under(root, "usr/local/bin/ssh-setup.sh"@), SSH_SETUP_SCRIPT@),
        FsStepView::WriteFile(
            under(root, "etc/systemd/system/ssh-setup.service"@),
            SSH_SETUP_SERVICE@,
        ),
    ] + match agent {
        Some(a) => agent_steps(root, a),
        None => Seq::empty(),
    } + seq![
        FsStepView::Symlink("/etc/systemd/system/fcnet.service"@, under(wants, "fcnet.service"@)),
        FsStepView::Symlink(
            "/etc/systemd/system/notify-ready.service"@,
            under(wants, "notify-ready.service"@),
        ),
        FsStepView::Symlink(
            "/etc/systemd/system/ssh-setup.service"@,
            under(wants, "ssh-setup.service"@),
        ),
        FsStepView::WriteFile(under(root, "etc/hostname"@), DEFAULT_HOSTNAME@),
        FsStepView::WriteFile(under(root, "etc/resolv.conf"@), RESOLV_CONF@),
    ]
}

fn join(root: &str, rel: &str) -> (r: String)
    ensures
        r@ == under(root@, rel@),
{
    crate::paths::path_join(root, rel)
}

fn push_step(steps: &mut Vec<FsStep>, step: FsStep)
    ensures
        steps_view(final(steps)@) == steps_view(old(steps)@).push(step@),
{
    steps.push(step);
    assert(steps_view(steps@) =~= steps_view(old(steps)@).push(step@));
}

/// The steps that inject the network setup scripts and systemd services into
/// the root filesystem at `fs_root` (and, when `agent_binary_path` is given,
/// install the management agent from there). The legacy boot notification
/// is always installed, for older snapshots without the agent. Running the
/// steps in order, stopping at the first that fails, configures the
/// filesystem; running them again on a configured filesystem changes
/// nothing.
pub fn configure_filesystem(fs_root: &str, agent_binary_path: Option<&str>) -> (r: Vec<FsStep>)
    ensures
        steps_view(r@) == filesystem_steps(
            fs_root@,
            match agent_binary_path {
                Some(a) => Some(a@),
                None => None,
            },
        ),
{
    let mut steps: Vec<FsStep> = Vec::new();
    let wants = join(fs_root, "etc/systemd/system/sysinit.target.wants");
    push_step(&mut steps, FsStep::CreateDir { path: join(fs_root, "usr/local/bin") });
    push_step(&mut steps, FsStep::CreateDir { path: join(fs_root, "etc/systemd/system") });
    push_step(&mut steps, FsStep::CreateDir { path: wants.clone() });
    push_step(
        &mut steps,
        FsStep::WriteExecutable {
            path: join(fs_root, "usr/local/bin/fcnet-setup.sh"),
            content: string_of(FCNET_SETUP_SCRIPT),
        },
    );
    push_step(
        &mut steps,
        FsStep::WriteFile {
            path: join(fs_root, "etc/systemd/system/fcnet.service"),
            content: string_of(FCNET_SERVICE),
        },
    );
    push_step(
        &mut steps,
        FsStep::WriteExecutable {
            path: join(fs_root, "usr/local/bin/notify-ready.sh"),
            content: string_of(NOTIFY_READY_SCRIPT),
        },
    );
    push_step(
        &mut steps,
        FsStep::WriteFile {
            path: join(fs_root, "etc/systemd/system/notify-ready.service"),
            content: string_of(NOTIFY_READY_SERVICE),
        },
    );
    push_step(
        &mut steps,
        FsStep::WriteExecutable {
            path: join(fs_root, "usr/local/bin/ssh-setup.sh"),
            content: string_of(SSH_SETUP_SCRIPT),
        },
    );
    push_step(
        &mut steps,
        FsStep::WriteFile {
            path: join(fs_root, "etc/systemd/system/ssh-setup.service"),
            content: string_of(SSH_SETUP_SERVICE),
        },
    );
    let ghost base = steps_view(steps@);
    match agent_binary_path {
        Some(agent) => {
            push_step(&mut steps, FsStep::RequireFile { path: string_of(agent) });
            push_step(
                &mut steps,
                FsStep::CopyExecutable {
                    from: string_of(agent),
                    to: join(fs_root, "usr/local/bin/chelsea-agent"),
                },
            );
            push_step(
                &mut steps,
                FsStep::WriteFile {
                    path: join(fs_root, "etc/systemd/system/chelsea-agent.service"),
                    content: string_of(CHELSEA_AGENT_SERVICE),
                },
            );
            let multi_user_wants = join(fs_root, "etc/systemd/system/multi-user.target.wants");
            push_step(&mut steps, FsStep::CreateDir { path: multi_user_wants.clone() });
            push_step(
                &mut steps,
                FsStep::Symlink {
                    target: string_of("/etc/systemd/system/chelsea-agent.service"),
                    link: join(multi_user_wants.as_str(), "chelsea-agent.service"),
                },
            );
            proof {
                assert(steps_view(steps@) =~= base + agent_steps(fs_root@, agent@));
            }
        },
        None => {
            proof {
                assert(steps_view(steps@) =~= base + Seq::<FsStepView>::empty());
            }
        },
    }
    let ghost with_agent = steps_view(steps@);
    push_step(
        &mut steps,
        FsStep::Symlink {
            target: string_of("/etc/systemd/system/fcnet.service"),
            link: join(wants.as_str(), "fcnet.service"),
        },
    );
    push_step(
        &mut steps,
        FsStep::Symlink {
            target: string_of("/etc/systemd/system/notify-ready.service"),
            link: join(wants.as_str(), "notify-ready.service"),
        },
    );
    push_step(
        &mut steps,
        FsStep::Symlink {
            target: string_of("/etc/systemd/system/ssh-setup.service"),
            link: join(wants.as_str(), "ssh-setup.service"),
        },
    );
    push_step(
        &mut steps,
        FsStep::WriteFile {
            path: join(fs_root, "etc/hostname"),
            content: string_of(DEFAULT_HOSTNAME),
        },
    );
    push_step(
        &mut steps,
        FsStep::WriteFile { path: join(fs_root, "etc/resolv.conf"), content: string_of(RESOLV_CONF) },
    );
    proof {
        let agent_view = match agent_binary_path {
            Some(a) => Some(a@),
            None => None,
        };
        assert(steps_view(steps@) =~= filesystem_steps(fs_root@, agent_view));
    }
    steps
}

/// Whatever the agent, the legacy boot notification is installed and
/// enabled, and the agent's steps are present exactly when an agent is given.
pub proof fn lemma_legacy_notification_always_installed(root: Seq<char>, agent: Option<Seq<char>>)
    ensures
        filesystem_steps(root, agent).contains(
            FsStepView::WriteExecutable(
                under(root, "usr/local/bin/notify-ready.sh"@),
                NOTIFY_READY_SCRIPT@,
            ),
        ),
        filesystem_steps(root, agent).contains(
            FsStepView::Symlink(
                "/etc/systemd/system/notify-ready.service"@,
                under(under(root, "etc/systemd/system/sysinit.target.wants"@), "notify-ready.service"@),
            ),
        ),
        filesystem_steps(root, agent).len() == if agent is Some { 19nat } else { 14nat },
{
    let steps = filesystem_steps(root, agent);
    assert(steps[5] == FsStepView::WriteExecutable(
        under(root, "usr/local/bin/notify-ready.sh"@),
        NOTIFY_READY_SCRIPT@,
    ));
    let k = if agent is Some { 15int } else { 10int };
    assert(steps[k] == FsStepView::Symlink(
        "/etc/systemd/system/notify-ready.service"@,
        under(under(root, "etc/systemd/system/sysinit.target.wants"@), "notify-ready.service"@),
    ));
}

/// Why building, configuring or managing a base image failed.
#[derive(Debug)]
pub enum BaseImageError {
    ConfigureFilesystem(String),
    CreateDirectory { path: String, source: std::io::Error },
    WriteFile { path: String, source: std::io::Error },
    CreateSymlink { from: String, to: String, source: std::io::Error },
    SetPermissions { path: String, source: std::io::Error },
    S3Download(String),
    DockerDump(String),
    ExtractTarball(String),
    /// An error of the RBD client, by its message.
    RbdClient(String),
    FormatFilesystem(String),
    MountDevice(String),
    UnmountDevice(String),
    CopyFiles(String),
    ImageAlreadyExists(String),
    ImageNotFound(String),
    ImageInUse { image_name: String, vm_ids: Vec<String> },
    ImageHasChildClones(String),
    InvalidImageName(String),
    Io(std::io::Error),
    Other(String),
}

/// The `Debug` text of a string: the string quoted, with its special
/// characters escaped.
pub uninterp spec fn debug_str_text(s: Seq<char>) -> Seq<char>;

/// `format!("{:?}", s)` for a string.
#[verifier::external_body]
fn debug_str(s: &str) -> (r: String)
    ensures
        r@ == debug_str_text(s@),
{
    format!("{:?}", s)
}

/// The `Debug` texts of the strings, separated by `", "`.
pub open spec fn debug_items(ids: Seq<Seq<char>>) -> Seq<char>
    decreases ids.len(),
{
    if ids.len() == 0 {
        Seq::empty()
    } else if ids.len() == 1 {
        debug_str_text(ids[0])
    } else {
        debug_items(ids.drop_last()) + ", "@ + debug_str_text(ids.last())
    }
}

/// The `Debug` text of a list of strings: `["a", "b"]`.
pub open spec fn debug_list(ids: Seq<Seq<char>>) -> Seq<char> {
    "["@ + debug_items(ids) + "]"@
}

/// The texts of a list of strings.
pub open spec fn texts_of(v: Seq<String>) -> Seq<Seq<char>> {
    v.map_values(|s: String| s@)
}

/// The message of an error, given the text of the I/O error it holds (if
/// any).
pub open spec fn base_image_error_text(e: BaseImageError, source_text: Seq<char>) -> Seq<char> {
    match e {
        BaseImageError::ConfigureFilesystem(m) => "Failed to configure filesystem: "@ + m@,
        BaseImageError::CreateDirectory { path, .. } => "Failed to create directory "@ + path@
            + ": "@ + source_text,
        BaseImageError::WriteFile { path, .. } => "Failed to write file "@ + path@ + ": "@
            + source_text,
        BaseImageError::CreateSymlink { from, to, .. } => "Failed to create symlink from "@ + from@
            + " to "@ + to@ + ": "@ + source_text,
        BaseImageError::SetPermissions { path, .. } => "Failed to set file permissions on "@ + path@
            + ": "@ + source_text,
        BaseImageError::S3Download(m) => "Failed to download from S3: "@ + m@,
        BaseImageError::DockerDump(m) => "Failed to create Docker dump: "@ + m@,
        BaseImageError::ExtractTarball(m) => "Failed to extract tarball: "@ + m@,
        BaseImageError::RbdClient(m) => "RBD client error: "@ + m@,
        BaseImageError::FormatFilesystem(m) => "Failed to format filesystem: "@ + m@,
        BaseImageError::MountDevice(m) => "Failed to mount device: "@ + m@,
        BaseImageError::UnmountDevice(m) => "Failed to unmount device: "@ + m@,
        BaseImageError::CopyFiles(m) => "Failed to copy files: "@ + m@,
        BaseImageError::ImageAlreadyExists(m) => "Image already exists: "@ + m@,
        BaseImageError::ImageNotFound(m) => "Image not found: "@ + m@,
        BaseImageError::ImageInUse { image_name, vm_ids } => "Image '"@ + image_name@
            + "' is in use by VMs: "@ + debug_list(texts_of(vm_ids@)),
        BaseImageError::ImageHasChildClones(m) => "Image '"@ + m@
            + "' has child clones and cannot be deleted"@,
        BaseImageError::InvalidImageName(m) => "Invalid image name '"@ + m@
            + "': must contain only alphanumeric characters, hyphens, underscores, and periods"@,
        BaseImageError::Io(_) => "IO error: "@ + source_text,
        BaseImageError::Other(m) => "Other error: "@ + m@,
    }
}

/// The error holds an I/O error, whose text its message includes.
pub open spec fn holds_io_error(e: BaseImageError) -> bool {
    ||| e is CreateDirectory
    ||| e is WriteFile
    ||| e is CreateSymlink
    ||| e is SetPermissions
    ||| e is Io
}

fn push_debug_list(out: &mut Vec<char>, ids: &Vec<String>)
    ensures
        final(out)@ == old(out)@ + debug_list(texts_of(ids@)),
{
    push_str(out, "[");
    let ghost start = out@;
    let mut i: usize = 0;
    while i < ids.len()
        invariant
            0 <= i <= ids@.len(),
            out@ == start + debug_items(texts_of(ids@).subrange(0, i as int)),
        decreases ids@.len() - i,
    {
        let ghost before = out@;
        if i > 0 {
            push_str(out, ", ");
        }
        let item = debug_str(ids[i].as_str());
        push_str(out, item.as_str());
        proof {
            let t = texts_of(ids@);
            let next = t.subrange(0, i + 1);
            assert(next.drop_last() =~= t.subrange(0, i as int));
            assert(next.last() == ids@[i as int]@);
            if i == 0 {
                assert(t.subrange(0, 0) =~= Seq::<Seq<char>>::empty());
                assert(out@ =~= start + debug_items(next));
            } else {
                assert(out@ =~= start + debug_items(next));
            }
        }
        i = i + 1;
    }
    assert(texts_of(ids@).subrange(0, ids@.len() as int) =~= texts_of(ids@));
    push_str(out, "]");
    assert(out@ =~= old(out)@ + debug_list(texts_of(ids@)));
}

fn push_with_source(out: &mut Vec<char>, source: &std::io::Error) -> (t: Ghost<Seq<char>>)
    ensures
        final(out)@ == old(out)@ + t@,
{
    let text = io_error_text(source);
    push_str(out, text.as_str());
    Ghost(text@)
}

impl BaseImageError {
    /// The error's message. Where the error holds an I/O error, the message
    /// ends with that error's own text.
    pub fn to_string(&self) -> (r: String)
        ensures
            exists|source_text: Seq<char>| r@ == base_image_error_text(*self, source_text),
            !holds_io_error(*self) ==> r@ == base_image_error_text(*self, Seq::empty()),
    {
        let mut out: Vec<char> = Vec::new();
        let mut source_text: Ghost<Seq<char>> = Ghost(Seq::empty());
        match self {
            BaseImageError::ConfigureFilesystem(m) => {
                push_str(&mut out, "Failed to configure filesystem: ");
                push_str(&mut out, m.as_str());
            },
            BaseImageError::CreateDirectory { path, source } => {
                push_str(&mut out, "Failed to create directory ");
                push_str(&mut out, path.as_str());
                push_str(&mut out, ": ");
                source_text = push_with_source(&mut out, source);
            },
            BaseImageError::WriteFile { path, source } => {
                push_str(&mut out, "Failed to write file ");
                push_str(&mut out, path.as_str());
                push_str(&mut out, ": ");
                source_text = push_with_source(&mut out, source);
            },
            BaseImageError::CreateSymlink { from, to, source } => {
                push_str(&mut out, "Failed to create symlink from ");
                push_str(&mut out, from.as_str());
                push_str(&mut out, " to ");
                push_str(&mut out, to.as_str());
                push_str(&mut out, ": ");
                source_text = push_with_source(&mut out, source);
            },
            BaseImageError::SetPermissions { path, source } => {
                push_str(&mut out, "Failed to set file permissions on ");
                push_str(&mut out, path.as_str());
                push_str(&mut out, ": ");
                source_text = push_with_source(&mut out, source);
            },
            BaseImageError::S3Download(m) => {
                push_str(&mut out, "Failed to download from S3: ");
                push_str(&mut out, m.as_str());
            },
            BaseImageError::DockerDump(m) => {
                push_str(&mut out, "Failed to create Docker dump: ");
                push_str(&mut out, m.as_str());
            },
            BaseImageError::ExtractTarball(m) => {
                push_str(&mut out, "Failed to extract tarball: ");
                push_str(&mut out, m.as_str());
            },
            BaseImageError::RbdClient(m) => {
                push_str(&mut out, "RBD client error: ");
                push_str(&mut out, m.as_str());
            },
            BaseImageError::FormatFilesystem(m) => {
                push_str(&mut out, "Failed to format filesystem: ");
                push_str(&mut out, m.as_str());
            },
            BaseImageError::MountDevice(m) => {
                push_str(&mut out, "Failed to mount device: ");
                push_str(&mut out, m.as_str());
            },
            BaseImageError::UnmountDevice(m) => {
                push_str(&mut out, "Failed to unmount device: ");
                push_str(&mut out, m.as_str());
            },
            BaseImageError::CopyFiles(m) => {
                push_str(&mut out, "Failed to copy files: ");
                push_str(&mut out, m.as_str());
            },
            BaseImageError::ImageAlreadyExists(m) => {
                push_str(&mut out, "Image already exists: ");
                push_str(&mut out, m.as_str());
            },
            BaseImageError::ImageNotFound(m) => {
                push_str(&mut out, "Image not found: ");
                push_str(&mut out, m.as_str());
            },
            BaseImageError::ImageInUse { image_name, vm_ids } => {
                push_str(&mut out, "Image '");
                push_str(&mut out, image_name.as_str());
                push_str(&mut out, "' is in use by VMs: ");
                push_debug_list(&mut out, vm_ids);
            },
            BaseImageError::ImageHasChildClones(m) => {
                push_str(&mut out, "Image '");
                push_str(&mut out, m.as_str());
                push_str(&mut out, "' has child clones and cannot be deleted");
            },
            BaseImageError::InvalidImageName(m) => {
                push_str(&mut out, "Invalid image name '");
                push_str(&mut out, m.as_str());
                push_str(
                    &mut out,
                    "': must contain only alphanumeric characters, hyphens, underscores, and periods",
                );
            },
            BaseImageError::Io(source) => {
                push_str(&mut out, "IO error: ");
                source_text = push_with_source(&mut out, source);
            },
            BaseImageError::Other(m) => {
                push_str(&mut out, "Other error: ");
                push_str(&mut out, m.as_str());
            },
        }
        proof {
            assert(out@ =~= base_image_error_text(*self, source_text@));
        }
        string_from_chars(out)
    }
}

/// The error when the agent binary to install is missing.
pub fn agent_binary_missing(path: &str) -> (r: BaseImageError)
    ensures
        r matches BaseImageError::Other(m) && m@ == "Chelsea agent binary not found at: "@ + path@,
{
    let mut out: Vec<char> = Vec::new();
    push_str(&mut out, "Chelsea agent binary not found at: ");
    push_str(&mut out, path);
    BaseImageError::Other(string_from_chars(out))
}

/// The error when copying the agent binary to `to` failed with `error_text`.
pub fn agent_copy_failed(to: &str, error_text: &str) -> (r: BaseImageError)
    ensures
        r matches BaseImageError::CopyFiles(m) && m@ == "Failed to copy chelsea-agent binary to "@ + to@ + ": "@
            + error_text@,
{
    let mut out: Vec<char> = Vec::new();
    push_str(&mut out, "Failed to copy chelsea-agent binary to ");
    push_str(&mut out, to);
    push_str(&mut out, ": ");
    push_str(&mut out, error_text);
    BaseImageError::CopyFiles(string_from_chars(out))
}

} // verus!
