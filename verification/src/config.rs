//! Generation of the GRUB configuration text.
//!
//! The generated file sets the boot timeout to zero, selects the first menu
//! entry as the default, and declares a single menu entry whose title is the
//! image label and whose body loads `/boot/kernel.elf` as a multiboot2
//! payload and boots it.  The label is embedded verbatim: no escaping is
//! performed, so a label holding a double quote, a brace or a line break
//! would corrupt the generated file.

use vstd::prelude::*;
use vstd::string::StringExecFns;

verus! {

/// The fixed text up to and including the opening quote of the menu-entry
/// title.
pub open spec fn cfg_head() -> Seq<char> {
    "set timeout=0\nset default=0\n\nmenuentry \""@
}

/// The fixed text from the closing quote of the menu-entry title to the end
/// of the file: the block body loading `/boot/kernel.elf` and booting it.
pub open spec fn cfg_tail() -> Seq<char> {
    "\" {\n    multiboot2 /boot/kernel.elf\n    boot\n}\n"@
}

/// The whole configuration text for a given label: the label sits verbatim
/// between the fixed head and tail.
pub open spec fn grub_cfg_text(label: Seq<char>) -> Seq<char> {
    cfg_head() + label + cfg_tail()
}

/// A label is configuration-safe when it is non-empty and holds no character
/// that would end the quoted title early or disturb the block structure of
/// the file.
pub open spec fn label_ok(label: Seq<char>) -> bool {
    &&& label.len() > 0
    &&& forall|i: int|
        0 <= i < label.len() ==> label[i] != '"' && label[i] != '{' && label[i] != '}'
            && label[i] != '\n'
}

/// Builds the configuration text for the given label.
pub fn grub_cfg(label: &str) -> (r: String)
    ensures
        r@ == grub_cfg_text(label@),
{
    let mut s = String::from_str("set timeout=0\nset default=0\n\nmenuentry \"");
    s.append(label);
    s.append("\" {\n    multiboot2 /boot/kernel.elf\n    boot\n}\n");
    proof {
        assert(s@ =~= grub_cfg_text(label@));
    }
    s
}

/// Config fidelity: for a configuration-safe label, the generated text holds
/// exactly one quoted title, namely the label itself, opened by the quote
/// that ends the fixed head and closed by the quote that starts the fixed
/// tail; the rest of the text, and in particular the body of the single
/// `menuentry` block (`multiboot2 /boot/kernel.elf` then `boot`), is the
/// fixed head and tail unchanged.
pub proof fn lemma_config_fidelity(label: Seq<char>)
    requires
        label_ok(label),
    ensures
        ({
            let t = grub_cfg_text(label);
            let hl = cfg_head().len() as int;
            &&& t.len() == cfg_head().len() + label.len() + cfg_tail().len()
            &&& t.subrange(0, hl) == cfg_head()
            &&& t.subrange(hl, hl + label.len()) == label
            &&& t.subrange(hl + label.len(), t.len() as int) == cfg_tail()
            &&& t[hl - 1] == '"'
            &&& t[hl + label.len()] == '"'
            &&& forall|i: int|
                0 <= i < t.len() && t[i] == '"' ==> i == hl - 1 || i == hl + label.len()
        }),
{
    reveal_strlit("set timeout=0\nset default=0\n\nmenuentry \"");
    reveal_strlit("\" {\n    multiboot2 /boot/kernel.elf\n    boot\n}\n");
    let t = grub_cfg_text(label);
    let hl = cfg_head().len() as int;
    assert(t.subrange(0, hl) =~= cfg_head());
    assert(t.subrange(hl, hl + label.len()) =~= label);
    assert(t.subrange(hl + label.len(), t.len() as int) =~= cfg_tail());
    assert forall|i: int| 0 <= i < t.len() && t[i] == '"' implies i == hl - 1 || i == hl
        + label.len() by {
        if i < hl {
            assert(t[i] == cfg_head()[i]);
        } else if i < hl + label.len() {
            assert(t[i] == label[i - hl]);
        } else {
            assert(t[i] == cfg_tail()[i - hl - label.len()]);
        }
    }
}

} // verus!
