use grubimage::config::grub_cfg;

#[test]
fn generated_text_is_exact() {
    let expected = "set timeout=0\nset default=0\n\nmenuentry \"MyOS\" {\n    multiboot2 /boot/kernel.elf\n    boot\n}\n";
    assert_eq!(grub_cfg("MyOS"), expected);
}

#[test]
fn one_menu_entry_with_the_label_as_title() {
    let text = grub_cfg("Demo Kernel 1.0");
    assert_eq!(text.matches("menuentry").count(), 1);
    assert!(text.contains("menuentry \"Demo Kernel 1.0\" {"));
    assert_eq!(text.matches('"').count(), 2);
}

#[test]
fn body_loads_the_kernel_and_boots() {
    let text = grub_cfg("MyOS");
    assert!(text.contains("\n    multiboot2 /boot/kernel.elf\n    boot\n}"));
    assert!(text.starts_with("set timeout=0\nset default=0\n"));
}

#[test]
fn label_is_embedded_verbatim() {
    let text = grub_cfg("weird label");
    assert!(text.contains("menuentry \"weird label\""));
    let empty = grub_cfg("");
    assert!(empty.contains("menuentry \"\" {"));
}
