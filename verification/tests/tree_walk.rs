use deploy_tools::walk::{RemoteEntry, TreeWalk};

fn dir(path: &str) -> RemoteEntry {
    RemoteEntry { path: path.to_string(), is_dir: true }
}

fn file(path: &str) -> RemoteEntry {
    RemoteEntry { path: path.to_string(), is_dir: false }
}

fn listing(path: &str) -> Vec<RemoteEntry> {
    match path {
        "/root" => vec![file("/root/a.txt"), dir("/root/sub"), file("/root/z.txt"), dir("/root/empty")],
        "/root/sub" => vec![dir("/root/sub/deep"), file("/root/sub/b.txt")],
        "/root/sub/deep" => vec![file("/root/sub/deep/c.txt")],
        _ => Vec::new(),
    }
}

fn recursive(path: &str, files: &mut Vec<String>, asked: &mut Vec<String>) {
    asked.push(path.to_string());
    for entry in listing(path) {
        if entry.is_dir {
            recursive(&entry.path, files, asked);
        } else {
            files.push(entry.path);
        }
    }
}

#[test]
fn files_come_in_the_order_of_a_descent() {
    let mut walk = TreeWalk::new("/root");
    let mut asked = Vec::new();
    while let Some(next) = walk.read_files() {
        asked.push(next.clone());
        walk.entries_read(listing(&next));
    }
    assert_eq!(
        walk.files(),
        &vec![
            "/root/a.txt".to_string(),
            "/root/sub/deep/c.txt".to_string(),
            "/root/sub/b.txt".to_string(),
            "/root/z.txt".to_string(),
        ]
    );
    assert_eq!(asked, vec!["/root", "/root/sub", "/root/sub/deep", "/root/empty"]);
    let mut expected_files = Vec::new();
    let mut expected_asked = Vec::new();
    recursive("/root", &mut expected_files, &mut expected_asked);
    assert_eq!(walk.files(), &expected_files);
    assert_eq!(asked, expected_asked);
}

#[test]
fn a_directory_that_cannot_be_read_holds_nothing() {
    let mut walk = TreeWalk::new("/gone");
    assert_eq!(walk.read_files(), Some("/gone".to_string()));
    walk.entries_read(Vec::new());
    assert_eq!(walk.read_files(), None);
    assert!(walk.files().is_empty());
    assert_eq!(walk.read_files(), None);
}

#[test]
fn directories_are_walked_and_never_listed() {
    let mut walk = TreeWalk::new("/r");
    assert_eq!(walk.read_files(), Some("/r".to_string()));
    walk.entries_read(vec![dir("/r/d1"), dir("/r/d2")]);
    assert!(walk.files().is_empty());
    assert_eq!(walk.read_files(), Some("/r/d1".to_string()));
    walk.entries_read(vec![file("/r/d1/f")]);
    assert_eq!(walk.read_files(), Some("/r/d2".to_string()));
    assert_eq!(walk.files(), &vec!["/r/d1/f".to_string()]);
    walk.entries_read(vec![]);
    assert_eq!(walk.read_files(), None);
    assert_eq!(walk.files(), &vec!["/r/d1/f".to_string()]);
}
