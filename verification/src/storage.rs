//! The overlay filesystem of a container: its directories, and the commands
//! that mount and unmount it.

use vstd::prelude::*;
use vstd::string::*;

use crate::command::{CommandView, HostCommand};
use crate::error::{ErrorView, GrinddError};
use crate::paths::{join, path_join};
use crate::text::{concat, views};

verus! {

/// The directories of a container's overlay: the image's root filesystem
/// below, the container's writable layer and work directory, and the mount
/// point where they are merged.
#[derive(Debug, Clone)]
pub struct OverlayLayout {
    pub lowerdir: String,
    pub upperdir: String,
    pub workdir: String,
    pub merged: String,
}

/// The model of an `OverlayLayout`.
pub struct LayoutView {
    pub lowerdir: Seq<char>,
    pub upperdir: Seq<char>,
    pub workdir: Seq<char>,
    pub merged: Seq<char>,
}

impl View for OverlayLayout {
    type V = LayoutView;

    open spec fn view(&self) -> LayoutView {
        LayoutView {
            lowerdir: self.lowerdir@,
            upperdir: self.upperdir@,
            workdir: self.workdir@,
            merged: self.merged@,
        }
    }
}

impl OverlayLayout {
    /// A copy of this layout.
    pub fn duplicate(&self) -> (r: OverlayLayout)
        ensures
            r@ == self@,
    {
        OverlayLayout {
            lowerdir: self.lowerdir.clone(),
            upperdir: self.upperdir.clone(),
            workdir: self.workdir.clone(),
            merged: self.merged.clone(),
        }
    }
}

/// The overlay directory of container `id` under `base`.
pub open spec fn overlay_root(base: Seq<char>, id: Seq<char>) -> Seq<char> {
    path_join(path_join(path_join(base, "containers"@), id), "overlay"@)
}

/// The overlay of container `id` under `base` on top of `image_rootfs`.
pub open spec fn overlay_layout(base: Seq<char>, id: Seq<char>, image_rootfs: Seq<char>) -> LayoutView {
    let root = overlay_root(base, id);
    LayoutView {
        lowerdir: image_rootfs,
        upperdir: path_join(root, "upper"@),
        workdir: path_join(root, "work"@),
        merged: path_join(root, "merged"@),
    }
}

/// The overlay of container `container_id` under `base` on top of
/// `image_rootfs`. The caller creates the upper, work and merged directories.
pub fn prepare_overlay_layout(base: &str, container_id: &str, image_rootfs: &str) -> (r:
    OverlayLayout)
    ensures
        r@ == overlay_layout(base@, container_id@, image_rootfs@),
{
    let containers = join(base, "containers");
    let mine = join(containers.as_str(), container_id);
    let root = join(mine.as_str(), "overlay");
    OverlayLayout {
        lowerdir: String::from_str(image_rootfs),
        upperdir: join(root.as_str(), "upper"),
        workdir: join(root.as_str(), "work"),
        merged: join(root.as_str(), "merged"),
    }
}

/// The mount options of an overlay.
pub open spec fn overlay_options(l: LayoutView) -> Seq<char> {
    "lowerdir="@ + l.lowerdir + ",upperdir="@ + l.upperdir + ",workdir="@ + l.workdir
}

/// The command that mounts the overlay `l` at its merged directory; its
/// failure is a runtime error "overlayfs mount failed".
pub open spec fn mount_command(l: LayoutView) -> CommandView {
    CommandView {
        program: "mount"@,
        args: seq!["-t"@, "overlay"@, "overlay"@, "-o"@, overlay_options(l), l.merged],
        on_failure: Some(ErrorView::Runtime("overlayfs mount failed"@)),
    }
}

/// The command that mounts the overlay `layout`; the caller runs it.
pub fn mount_overlay(layout: &OverlayLayout) -> (r: HostCommand)
    ensures
        r@ == mount_command(layout@),
{
    let mut options = concat("lowerdir=", layout.lowerdir.as_str());
    options.append(",upperdir=");
    options.append(layout.upperdir.as_str());
    options.append(",workdir=");
    options.append(layout.workdir.as_str());
    let mut args: Vec<String> = Vec::new();
    args.push(String::from_str("-t"));
    args.push(String::from_str("overlay"));
    args.push(String::from_str("overlay"));
    args.push(String::from_str("-o"));
    args.push(options);
    args.push(layout.merged.clone());
    let r = HostCommand {
        program: String::from_str("mount"),
        args,
        on_failure: Some(GrinddError::Runtime(String::from_str("overlayfs mount failed"))),
    };
    assert(views(r.args@) =~= mount_command(layout@).args);
    r
}

/// The command that unmounts the overlay `l`; its failure is a runtime error
/// "overlayfs unmount failed".
pub open spec fn unmount_command(l: LayoutView) -> CommandView {
    CommandView {
        program: "umount"@,
        args: seq![l.merged],
        on_failure: Some(ErrorView::Runtime("overlayfs unmount failed"@)),
    }
}

/// The command that unmounts the overlay `layout`; the caller runs it.
pub fn unmount_overlay(layout: &OverlayLayout) -> (r: HostCommand)
    ensures
        r@ == unmount_command(layout@),
{
    let mut args: Vec<String> = Vec::new();
    args.push(layout.merged.clone());
    let r = HostCommand {
        program: String::from_str("umount"),
        args,
        on_failure: Some(GrinddError::Runtime(String::from_str("overlayfs unmount failed"))),
    };
    assert(views(r.args@) =~= unmount_command(layout@).args);
    r
}

} // verus!
