use design_patterns::composite::{Component, Directory, File, FileSystemComponent};

#[test]
fn test_file_system_component_composite_structure() {
    let file1 = File::new("file1.txt".to_string(), 10);
    let file2 = File::new("file2.txt".to_string(), 20);
    let file3 = File::new("file3.log".to_string(), 5);

    assert_eq!(file1.name(), "file1.txt");
    assert_eq!(file1.calculate_size(), 10);

    let mut root_dir = Directory::new("root".to_string());
    let mut sub_dir = Directory::new("subdir".to_string());

    sub_dir.add_child(Component::File(file2));
    sub_dir.add_child(Component::File(file3));

    root_dir.add_child(Component::File(file1));
    root_dir.add_child(Component::Directory(sub_dir));

    assert_eq!(root_dir.name(), "root");
    assert_eq!(root_dir.calculate_size(), 35);
}

#[test]
fn empty_directory_has_size_zero() {
    let dir = Directory::new("empty".to_string());
    assert_eq!(dir.calculate_size(), 0);
    assert_eq!(dir.name(), "empty");
}

#[test]
fn deep_nesting_sums_all_leaves() {
    let mut level = Directory::new("d0".to_string());
    level.add_child(Component::File(File::new("a".to_string(), 7)));
    let mut i: usize = 1;
    while i < 20 {
        let mut parent = Directory::new(format!("d{}", i));
        parent.add_child(Component::File(File::new(format!("f{}", i), i)));
        parent.add_child(Component::Directory(level));
        level = parent;
        i += 1;
    }
    // 7 + (1 + 2 + ... + 19)
    assert_eq!(level.calculate_size(), 7 + 190);
}

#[test]
fn child_order_does_not_change_total() {
    let mut a = Directory::new("a".to_string());
    a.add_child(Component::File(File::new("x".to_string(), 3)));
    a.add_child(Component::File(File::new("y".to_string(), 4)));
    let mut b = Directory::new("b".to_string());
    b.add_child(Component::File(File::new("y".to_string(), 4)));
    b.add_child(Component::File(File::new("x".to_string(), 3)));
    assert_eq!(a.calculate_size(), b.calculate_size());
    let c = Component::Directory(a);
    assert_eq!(c.name(), "a");
    assert_eq!(c.calculate_size(), 7);
}

#[test]
fn file_of_largest_size() {
    let f = File::new("big".to_string(), usize::MAX);
    assert_eq!(f.calculate_size(), usize::MAX);
    let mut d = Directory::new("d".to_string());
    d.add_child(Component::File(f));
    d.add_child(Component::File(File::new("zero".to_string(), 0)));
    assert_eq!(d.calculate_size(), usize::MAX);
}
