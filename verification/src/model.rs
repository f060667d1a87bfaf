//! A file-system model of the staging steps.
//!
//! A file system is a map from a path to the contents of the file there.
//! Directory creation adds no file entry, so a successful build changes the
//! map by exactly two of its actions: the configuration write and the kernel
//! copy.  The lemmas here state what the staged tree holds afterwards.

use vstd::prelude::*;

use crate::builder::cfg_path;
use crate::builder::kernel_elf_path;
use crate::config::grub_cfg_text;

verus! {

/// The contents of one file: the text of a written file, or the bytes of a
/// copied binary.
pub enum FileData {
    /// A text file, as the characters written to it.
    Text { text: Seq<char> },
    /// A binary file, as its bytes.
    Bytes { bytes: Seq<u8> },
}

/// Writing `data` to `path`: the file is created or truncated, so the entry
/// at `path` is replaced outright.
pub open spec fn fs_write(
    fs: Map<Seq<char>, FileData>,
    path: Seq<char>,
    data: FileData,
) -> Map<Seq<char>, FileData> {
    fs.insert(path, data)
}

/// Copying `from` to `to`: where the source exists, the entry at `to` is
/// replaced by the source's contents; where it does not, the copy fails and
/// the file system is unchanged.
pub open spec fn fs_copy(
    fs: Map<Seq<char>, FileData>,
    from: Seq<char>,
    to: Seq<char>,
) -> Map<Seq<char>, FileData> {
    if fs.dom().contains(from) {
        fs.insert(to, fs[from])
    } else {
        fs
    }
}

/// The file system after the staging steps of a successful build from the
/// tree rooted at `stage`: the generated configuration written to
/// `boot/grub/grub.cfg`, then the kernel binary at `kernel_src` copied to
/// `boot/kernel.elf`.
pub open spec fn staged_fs(
    fs: Map<Seq<char>, FileData>,
    stage: Seq<char>,
    kernel_src: Seq<char>,
    label: Seq<char>,
) -> Map<Seq<char>, FileData> {
    fs_copy(
        fs_write(fs, cfg_path(stage), FileData::Text { text: grub_cfg_text(label) }),
        kernel_src,
        kernel_elf_path(stage),
    )
}

/// The two staged files have distinct paths under any staging root.
pub proof fn lemma_staged_paths_distinct(stage: Seq<char>)
    ensures
        cfg_path(stage) != kernel_elf_path(stage),
{
    reveal_strlit("/boot/grub/grub.cfg");
    reveal_strlit("/boot/kernel.elf");
    assert(cfg_path(stage).len() == stage.len() + 19);
    assert(kernel_elf_path(stage).len() == stage.len() + 16);
}

/// Kernel copy fidelity: after the staging steps of a successful build, the
/// staged `boot/kernel.elf` holds exactly the contents of the source kernel
/// binary, and the staged `boot/grub/grub.cfg` holds exactly the generated
/// configuration text — provided the source kernel exists and is not itself
/// the configuration file being written.
pub proof fn lemma_kernel_copy_fidelity(
    fs: Map<Seq<char>, FileData>,
    stage: Seq<char>,
    kernel_src: Seq<char>,
    label: Seq<char>,
)
    requires
        fs.dom().contains(kernel_src),
        kernel_src != cfg_path(stage),
    ensures
        staged_fs(fs, stage, kernel_src, label).dom().contains(kernel_elf_path(stage)),
        staged_fs(fs, stage, kernel_src, label)[kernel_elf_path(stage)] == fs[kernel_src],
        staged_fs(fs, stage, kernel_src, label)[cfg_path(stage)] == (FileData::Text {
            text: grub_cfg_text(label),
        }),
{
    lemma_staged_paths_distinct(stage);
}

} // verus!
