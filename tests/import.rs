use kenga_ide::import::{Action, AssetImport, Event, ImportError, Stage};

fn strings(items: &[&str]) -> Vec<String> {
    items.iter().map(|s| s.to_string()).collect()
}

fn expect_create_dir(a: Action, dir: &str) {
    match a {
        Action::CreateDir(p) => assert_eq!(p, dir),
        other => panic!("expected CreateDir, got {:?}", other),
    }
}

fn expect_check(a: Action, path: &str) {
    match a {
        Action::CheckFile(p) => assert_eq!(p, path),
        other => panic!("expected CheckFile, got {:?}", other),
    }
}

fn expect_copy(a: Action, from: &str, to: &str) {
    match a {
        Action::CopyFile { from: f, to: t } => {
            assert_eq!(f, from);
            assert_eq!(t, to);
        }
        other => panic!("expected CopyFile, got {:?}", other),
    }
}

fn expect_importer(a: Action, project_dir: &str) {
    match a {
        Action::RunImporter { program, args, cwd } => {
            assert_eq!(program, "kenga");
            assert_eq!(args, strings(&["import", "--project", project_dir]));
            assert_eq!(cwd, project_dir);
        }
        other => panic!("expected RunImporter, got {:?}", other),
    }
}

fn expect_success(a: Action, message: &str) {
    match a {
        Action::Finish(Ok(m)) => assert_eq!(m, message),
        other => panic!("expected success, got {:?}", other),
    }
}

#[test]
fn one_file_and_one_missing_path() {
    let mut imp = AssetImport::new(strings(&["/tmp/a.png", "/tmp/missing.png"]), "/proj".to_string());
    expect_create_dir(imp.next(Event::Start), "/proj/assets");
    expect_check(imp.next(Event::DirCreated(Ok(()))), "/tmp/a.png");
    expect_copy(imp.next(Event::Checked(true)), "/tmp/a.png", "/proj/assets/a.png");
    expect_check(imp.next(Event::Copied(Ok(()))), "/tmp/missing.png");
    expect_importer(imp.next(Event::Checked(false)), "/proj");
    expect_success(imp.next(Event::Launched(Ok(()))), "Imported 2 file(s)");
    assert_eq!(imp.stage(), Stage::Done);
}

#[test]
fn empty_import_reports_zero() {
    let mut imp = AssetImport::new(Vec::new(), "/proj".to_string());
    assert_eq!(imp.stage(), Stage::Ready);
    expect_create_dir(imp.next(Event::Start), "/proj/assets");
    expect_importer(imp.next(Event::DirCreated(Ok(()))), "/proj");
    expect_success(imp.next(Event::Launched(Ok(()))), "Imported 0 file(s)");
}

#[test]
fn every_file_is_copied_in_order() {
    let mut imp = AssetImport::new(strings(&["/x/one.txt", "/y/two.bin", "three"]), "p/".to_string());
    expect_create_dir(imp.next(Event::Start), "p/assets");
    expect_check(imp.next(Event::DirCreated(Ok(()))), "/x/one.txt");
    expect_copy(imp.next(Event::Checked(true)), "/x/one.txt", "p/assets/one.txt");
    expect_check(imp.next(Event::Copied(Ok(()))), "/y/two.bin");
    expect_copy(imp.next(Event::Checked(true)), "/y/two.bin", "p/assets/two.bin");
    expect_check(imp.next(Event::Copied(Ok(()))), "three");
    expect_copy(imp.next(Event::Checked(true)), "three", "p/assets/three");
    expect_importer(imp.next(Event::Copied(Ok(()))), "p/");
    expect_success(imp.next(Event::Launched(Ok(()))), "Imported 3 file(s)");
}

#[test]
fn skipped_entries_still_counted() {
    let mut imp = AssetImport::new(strings(&["/some/dir", "/no/such"]), "/proj".to_string());
    expect_create_dir(imp.next(Event::Start), "/proj/assets");
    expect_check(imp.next(Event::DirCreated(Ok(()))), "/some/dir");
    expect_check(imp.next(Event::Checked(false)), "/no/such");
    expect_importer(imp.next(Event::Checked(false)), "/proj");
    expect_success(imp.next(Event::Launched(Ok(()))), "Imported 2 file(s)");
}

#[test]
fn same_name_goes_to_same_destination() {
    let mut imp = AssetImport::new(strings(&["/a/logo.png", "/b/logo.png"]), "/proj".to_string());
    imp.next(Event::Start);
    imp.next(Event::DirCreated(Ok(())));
    expect_copy(imp.next(Event::Checked(true)), "/a/logo.png", "/proj/assets/logo.png");
    imp.next(Event::Copied(Ok(())));
    expect_copy(imp.next(Event::Checked(true)), "/b/logo.png", "/proj/assets/logo.png");
}

#[test]
fn second_import_repeats_the_first() {
    for _ in 0..2 {
        let mut imp = AssetImport::new(strings(&["/tmp/a.png"]), "/proj".to_string());
        expect_create_dir(imp.next(Event::Start), "/proj/assets");
        expect_check(imp.next(Event::DirCreated(Ok(()))), "/tmp/a.png");
        expect_copy(imp.next(Event::Checked(true)), "/tmp/a.png", "/proj/assets/a.png");
        expect_importer(imp.next(Event::Copied(Ok(()))), "/proj");
        expect_success(imp.next(Event::Launched(Ok(()))), "Imported 1 file(s)");
    }
}

#[test]
fn directory_failure_stops_before_copies() {
    let mut imp = AssetImport::new(strings(&["/tmp/a.png"]), "/root-only".to_string());
    expect_create_dir(imp.next(Event::Start), "/root-only/assets");
    match imp.next(Event::DirCreated(Err("permission denied".to_string()))) {
        Action::Finish(Err(ImportError::Directory(m))) => assert_eq!(m, "permission denied"),
        other => panic!("expected a directory failure, got {:?}", other),
    }
    assert_eq!(imp.stage(), Stage::Done);
    assert!(!imp.takes(&Event::Checked(true)));
    assert!(!imp.takes(&Event::Copied(Ok(()))));
}

#[test]
fn copy_failure_stops_the_import() {
    let mut imp = AssetImport::new(strings(&["/tmp/a.png", "/tmp/b.png"]), "/proj".to_string());
    imp.next(Event::Start);
    imp.next(Event::DirCreated(Ok(())));
    imp.next(Event::Checked(true));
    match imp.next(Event::Copied(Err("disk full".to_string()))) {
        Action::Finish(Err(e)) => {
            assert!(matches!(e, ImportError::Copy(_)));
            assert_eq!(e.message(), "disk full");
        }
        other => panic!("expected a copy failure, got {:?}", other),
    }
    assert_eq!(imp.stage(), Stage::Done);
}

#[test]
fn launch_failure_after_copies() {
    let mut imp = AssetImport::new(strings(&["/tmp/a.png"]), "/proj".to_string());
    imp.next(Event::Start);
    imp.next(Event::DirCreated(Ok(())));
    expect_copy(imp.next(Event::Checked(true)), "/tmp/a.png", "/proj/assets/a.png");
    expect_importer(imp.next(Event::Copied(Ok(()))), "/proj");
    match imp.next(Event::Launched(Err("No such file or directory".to_string()))) {
        Action::Finish(Err(e)) => {
            assert!(matches!(e, ImportError::Launch(_)));
            assert_eq!(e.message(), "No such file or directory");
        }
        other => panic!("expected a launch failure, got {:?}", other),
    }
}

#[test]
fn only_the_expected_event_is_taken() {
    let mut imp = AssetImport::new(strings(&["/tmp/a.png"]), "/proj".to_string());
    assert!(imp.takes(&Event::Start));
    assert!(!imp.takes(&Event::Launched(Ok(()))));
    imp.next(Event::Start);
    assert!(!imp.takes(&Event::Start));
    assert!(imp.takes(&Event::DirCreated(Ok(()))));
    imp.next(Event::DirCreated(Ok(())));
    assert_eq!(imp.stage(), Stage::Checking(0));
    assert!(imp.takes(&Event::Checked(false)));
    assert!(!imp.takes(&Event::Copied(Ok(()))));
}

#[test]
fn error_message_of_each_kind() {
    assert_eq!(ImportError::Directory("d".to_string()).message(), "d");
    assert_eq!(ImportError::Copy("c".to_string()).message(), "c");
    assert_eq!(ImportError::Launch("l".to_string()).message(), "l");
}
