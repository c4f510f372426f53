use design_patterns::builder::{Computer, ComputerBuilder};

#[test]
fn test_basic_computer_build() {
    let computer = ComputerBuilder::new("Intel i5".to_string(), 16).build();

    assert_eq!(
        computer,
        Computer {
            cpu: "Intel i5".to_string(),
            ram_gb: 16,
            gpu: None,
            storage_gb: None,
        }
    );
}

#[test]
fn test_full_computer_build() {
    let computer = ComputerBuilder::new("AMD Ryzen 9".to_string(), 64)
        .add_gpu("NVIDIA RTX 4090".to_string())
        .add_storage(2048)
        .build();

    assert_eq!(
        computer,
        Computer {
            cpu: "AMD Ryzen 9".to_string(),
            ram_gb: 64,
            gpu: Some("NVIDIA RTX 4090".to_string()),
            storage_gb: Some(2048),
        }
    );
}

#[test]
fn test_computer_with_gpu_only() {
    let computer = ComputerBuilder::new("Intel i9".to_string(), 32)
        .add_gpu("AMD RX 7900 XTX".to_string())
        .build();

    assert_eq!(
        computer,
        Computer {
            cpu: "Intel i9".to_string(),
            ram_gb: 32,
            gpu: Some("AMD RX 7900 XTX".to_string()),
            storage_gb: None,
        }
    );
}

#[test]
fn later_part_replaces_earlier() {
    let computer = ComputerBuilder::new("Arm".to_string(), 8)
        .add_storage(128)
        .add_storage(256)
        .build();
    assert_eq!(computer.storage_gb, Some(256));
    assert_eq!(computer.gpu, None);
}
