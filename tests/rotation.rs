use std::collections::HashMap;

use freedom_logger::{FileOp, LogFile, LoggerError, RotationCheck, RotationResult, RotationStep, SizeBasedRotation};

fn log_file(dir: &str, stem: &str, ext: &str) -> LogFile {
    LogFile { directory: dir.to_string(), stem: stem.to_string(), extension: ext.to_string() }
}

/// Performs the steps on an in-memory set of files, stopping at the first failure.
fn run(files: &mut HashMap<String, u32>, steps: Vec<RotationStep>) -> RotationResult {
    let mut failed = None;
    for (k, step) in steps.iter().enumerate() {
        let ok = match &step.op {
            FileOp::RemoveIfPresent { path } => {
                files.remove(path);
                true
            }
            FileOp::RenameIfPresent { from, to } => {
                if let Some(g) = files.remove(from) {
                    files.insert(to.clone(), g);
                }
                true
            }
            FileOp::Rename { from, to } => match files.remove(from) {
                Some(g) => {
                    files.insert(to.clone(), g);
                    true
                }
                None => false,
            },
            FileOp::Remove { path } => files.remove(path).is_some(),
        };
        if !ok {
            failed = Some(k);
            break;
        }
    }
    SizeBasedRotation::finish_rotation(steps, failed)
}

fn check(rotation: &SizeBasedRotation, file: &LogFile, size: Option<u64>, files: &mut HashMap<String, u32>) -> RotationResult {
    match rotation.check_and_rotate(file, size) {
        RotationCheck::NotNeeded => RotationResult::NotNeeded,
        RotationCheck::Rotate(steps) => run(files, steps),
    }
}

#[test]
fn test_rotation_not_needed_for_small_file() {
    let rotation = SizeBasedRotation::new(1000, 3);
    let file = log_file("tmp", "test", "log");
    let mut files = HashMap::new();
    files.insert("tmp/test.log".to_string(), 1);
    let result = check(&rotation, &file, Some(100), &mut files);
    assert_eq!(result, RotationResult::NotNeeded);
    assert_eq!(files.len(), 1);
    assert_eq!(files.get("tmp/test.log"), Some(&1));
}

#[test]
fn test_rotation_needed_for_large_file() {
    let rotation = SizeBasedRotation::new(1000, 2);
    let file = log_file("tmp", "test", "log");
    let mut files = HashMap::new();
    files.insert("tmp/test.log".to_string(), 1);
    let result = check(&rotation, &file, Some(2048), &mut files);
    assert_eq!(result, RotationResult::Completed);
    assert!(!files.contains_key("tmp/test.log"));
    assert!(files.contains_key("tmp/test.1.log"));
}

#[test]
fn test_no_rotation_for_nonexistent_file() {
    let rotation = SizeBasedRotation::new(1000, 3);
    let file = log_file("tmp", "nonexistent", "log");
    assert_eq!(rotation.check_and_rotate(&file, None), RotationCheck::NotNeeded);
}

#[test]
fn threshold_is_inclusive() {
    let rotation = SizeBasedRotation::new(1000, 1);
    let file = log_file("d", "a", "log");
    assert_eq!(rotation.check_and_rotate(&file, Some(999)), RotationCheck::NotNeeded);
    assert!(matches!(rotation.check_and_rotate(&file, Some(1000)), RotationCheck::Rotate(_)));
}

#[test]
fn plan_shifts_in_descending_order() {
    let rotation = SizeBasedRotation::new(10, 3);
    let file = log_file("logs", "app", "log");
    let steps = match rotation.check_and_rotate(&file, Some(10)) {
        RotationCheck::Rotate(steps) => steps,
        RotationCheck::NotNeeded => panic!("expected a rotation"),
    };
    let ops: Vec<FileOp> = steps.iter().map(|s| s.op.clone()).collect();
    assert_eq!(
        ops,
        vec![
            FileOp::RemoveIfPresent { path: "logs/app.3.log".to_string() },
            FileOp::RenameIfPresent { from: "logs/app.2.log".to_string(), to: "logs/app.3.log".to_string() },
            FileOp::RenameIfPresent { from: "logs/app.1.log".to_string(), to: "logs/app.2.log".to_string() },
            FileOp::Rename { from: "logs/app.log".to_string(), to: "logs/app.1.log".to_string() },
        ]
    );
    assert_eq!(
        steps[0].failure,
        LoggerError::RotationFailed {
            current_file: "logs/app.log".to_string(),
            backup_file: "logs/app.3.log".to_string(),
            reason: "Failed to delete oldest backup".to_string(),
        }
    );
    assert_eq!(
        steps[1].failure,
        LoggerError::RotationFailed {
            current_file: "logs/app.2.log".to_string(),
            backup_file: "logs/app.3.log".to_string(),
            reason: "Failed to shift backup file".to_string(),
        }
    );
}

#[test]
fn json_file_rotates_into_log_backups() {
    let rotation = SizeBasedRotation::new(10, 1);
    let file = log_file("out", "events", "json");
    let mut files = HashMap::new();
    files.insert("out/events.json".to_string(), 7);
    assert_eq!(check(&rotation, &file, Some(50), &mut files), RotationResult::Completed);
    assert_eq!(files.get("out/events.1.log"), Some(&7));
    assert!(!files.contains_key("out/events.json"));
}

#[test]
fn no_backups_removes_current_file() {
    let rotation = SizeBasedRotation::new(10, 0);
    let file = log_file("d", "a", "log");
    let mut files = HashMap::new();
    files.insert("d/a.log".to_string(), 1);
    files.insert("d/other.log".to_string(), 9);
    assert_eq!(check(&rotation, &file, Some(11), &mut files), RotationResult::Completed);
    assert_eq!(files.len(), 1);
    assert_eq!(files.get("d/other.log"), Some(&9));
}

#[test]
fn repeated_rotations_age_backups() {
    let rotation = SizeBasedRotation::new(1000, 2);
    let file = log_file("tmp", "base", "log");
    let mut files: HashMap<String, u32> = HashMap::new();
    for generation in 1..=3 {
        files.insert("tmp/base.log".to_string(), generation);
        assert_eq!(check(&rotation, &file, Some(2048), &mut files), RotationResult::Completed);
    }
    assert_eq!(files.get("tmp/base.1.log"), Some(&3));
    assert_eq!(files.get("tmp/base.2.log"), Some(&2));
    assert!(!files.contains_key("tmp/base.log"));
    assert!(!files.values().any(|g| *g == 1));
    assert_eq!(files.len(), 2);
}

#[test]
fn failed_step_reports_its_failure() {
    let rotation = SizeBasedRotation::new(10, 2);
    let file = log_file("tmp", "gone", "log");
    let mut files = HashMap::new();
    let result = check(&rotation, &file, Some(20), &mut files);
    assert_eq!(
        result,
        RotationResult::Failed(LoggerError::RotationFailed {
            current_file: "tmp/gone.log".to_string(),
            backup_file: "tmp/gone.1.log".to_string(),
            reason: "Failed to move current log to backup".to_string(),
        })
    );
}

#[test]
fn zero_backups_failure_names_none() {
    let rotation = SizeBasedRotation::new(10, 0);
    let file = log_file("tmp", "x", "log");
    let mut files = HashMap::new();
    assert_eq!(
        check(&rotation, &file, Some(20), &mut files),
        RotationResult::Failed(LoggerError::RotationFailed {
            current_file: "tmp/x.log".to_string(),
            backup_file: "none".to_string(),
            reason: "Failed to delete current log (no backups configured)".to_string(),
        })
    );
}

#[test]
fn finish_rotation_without_failure_completes() {
    assert_eq!(SizeBasedRotation::finish_rotation(Vec::new(), None), RotationResult::Completed);
}

#[test]
fn backup_paths() {
    let file = log_file("logs/", "app", "log");
    assert_eq!(file.current(), "logs/app.log");
    assert_eq!(file.backup(12), "logs/app.12.log");
}
