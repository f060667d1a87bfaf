use grubimage::builder::Action;
use grubimage::builder::BuildRequest;
use grubimage::builder::DiskImageError;
use grubimage::builder::ImageBuilder;
use grubimage::builder::StepOutcome;

fn request() -> BuildRequest {
    BuildRequest {
        output_image_path: "out/image.iso".to_string(),
        stage_dir_path: "out/iso".to_string(),
        kernel_binary_path: "kernel.bin".to_string(),
        image_label: "MyOS".to_string(),
    }
}

#[test]
fn successful_run_issues_the_five_steps_in_order() {
    let mut b = ImageBuilder::new(request());

    match b.next_action() {
        Some(Action::CreateDir { path }) => assert_eq!(path, "out/iso"),
        other => panic!("expected staging-directory creation, got {:?}", other),
    }
    assert!(b.apply(StepOutcome::Succeeded).is_ok());

    match b.next_action() {
        Some(Action::CreateDirAll { path }) => assert_eq!(path, "out/iso/boot/grub"),
        other => panic!("expected boot/grub creation, got {:?}", other),
    }
    assert!(b.apply(StepOutcome::Succeeded).is_ok());

    match b.next_action() {
        Some(Action::WriteFile { path, contents }) => {
            assert_eq!(path, "out/iso/boot/grub/grub.cfg");
            assert!(contents.contains("menuentry \"MyOS\" {"));
            assert!(contents.contains("multiboot2 /boot/kernel.elf"));
        }
        other => panic!("expected the configuration write, got {:?}", other),
    }
    assert!(b.apply(StepOutcome::Succeeded).is_ok());

    match b.next_action() {
        Some(Action::CopyFile { from, to }) => {
            assert_eq!(from, "kernel.bin");
            assert_eq!(to, "out/iso/boot/kernel.elf");
        }
        other => panic!("expected the kernel copy, got {:?}", other),
    }
    assert!(b.apply(StepOutcome::Succeeded).is_ok());

    match b.next_action() {
        Some(Action::RunTool { output_path, stage_dir }) => {
            assert_eq!(output_path, "out/image.iso");
            assert_eq!(stage_dir, "out/iso");
        }
        other => panic!("expected the tool invocation, got {:?}", other),
    }
    assert!(b
        .apply(StepOutcome::ToolExited { success: true, stderr: Vec::new() })
        .is_ok());

    assert!(b.next_action().is_none());
}

#[test]
fn staging_over_an_existing_tree_never_errors() {
    let mut b = ImageBuilder::new(request());
    assert!(b.apply(StepOutcome::AlreadyExists).is_ok());
    assert!(b.apply(StepOutcome::AlreadyExists).is_ok());
    assert!(matches!(b.next_action(), Some(Action::WriteFile { .. })));
}

#[test]
fn failed_stage_dir_creation_aborts() {
    let mut b = ImageBuilder::new(request());
    let r = b.apply(StepOutcome::Failed { error: "permission denied".to_string() });
    match r {
        Err(DiskImageError::Io { message, error }) => {
            assert_eq!(message, "failed to create isodir");
            assert_eq!(error, "permission denied");
        }
        other => panic!("expected an I/O error, got {:?}", other),
    }
    assert!(b.next_action().is_none());
}

#[test]
fn failed_kernel_copy_short_circuits_before_the_tool() {
    let mut b = ImageBuilder::new(request());
    assert!(b.apply(StepOutcome::Succeeded).is_ok());
    assert!(b.apply(StepOutcome::Succeeded).is_ok());
    assert!(b.apply(StepOutcome::Succeeded).is_ok());
    assert!(matches!(b.next_action(), Some(Action::CopyFile { .. })));

    let r = b.apply(StepOutcome::Failed { error: "no such file".to_string() });
    match r {
        Err(DiskImageError::Io { message, error }) => {
            assert_eq!(message, "failed to create kernel.elf");
            assert_eq!(error, "no such file");
        }
        other => panic!("expected an I/O error, got {:?}", other),
    }
    assert!(b.next_action().is_none());
}

#[test]
fn tool_failure_passes_stderr_through_verbatim() {
    let mut b = ImageBuilder::new(request());
    for _ in 0..4 {
        assert!(b.apply(StepOutcome::Succeeded).is_ok());
    }
    let noise = b"xorriso : FAILURE : something went wrong\n".to_vec();
    let r = b.apply(StepOutcome::ToolExited { success: false, stderr: noise.clone() });
    match r {
        Err(DiskImageError::ToolFailed { stderr }) => assert_eq!(stderr, noise),
        other => panic!("expected a tool failure, got {:?}", other),
    }
    assert!(b.next_action().is_none());
}

#[test]
fn tool_launch_failure_is_an_io_error() {
    let mut b = ImageBuilder::new(request());
    for _ in 0..4 {
        assert!(b.apply(StepOutcome::Succeeded).is_ok());
    }
    let r = b.apply(StepOutcome::ToolLaunchFailed { error: "not found".to_string() });
    match r {
        Err(DiskImageError::Io { message, error }) => {
            assert_eq!(message, "failed to execute grub-mkrescue command");
            assert_eq!(error, "not found");
        }
        other => panic!("expected an I/O error, got {:?}", other),
    }
}
