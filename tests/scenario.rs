use std::collections::HashMap;
use std::io::Write;
use xkeen_ui::archive::{extract_in_memory, format_of, ArchiveFormat};
use xkeen_ui::backup::backup_name;
use xkeen_ui::download::{DownloadSession, FetchEvent, Source, Step};
use xkeen_ui::release::resolve_asset;
use xkeen_ui::update::{Action, Completion, Outcome, UpdatePlan, UpdateRun};

fn zip_with(name: &str, data: &[u8]) -> Vec<u8> {
    let mut w = zip::ZipWriter::new(std::io::Cursor::new(Vec::new()));
    w.start_file(name, zip::write::SimpleFileOptions::default()).unwrap();
    w.write_all(data).unwrap();
    w.finish().unwrap().into_inner()
}

#[test]
fn update_of_a_running_core_end_to_end() {
    let asset = resolve_asset("xray", "aarch64", "1.2.3", &None).unwrap();
    assert_eq!(asset.file_name, "Xray-linux-arm64-v8a.zip");
    assert_eq!(asset.url, "https://github.com/XTLS/Xray-core/releases/download/v1.2.3/Xray-linux-arm64-v8a.zip");
    assert_eq!(format_of(&asset.file_name), ArchiveFormat::Zip);

    let archive = zip_with("xray", b"new xray binary");
    let mut requested = Vec::new();
    let mirrors = vec!["https://m1".to_string(), "https://m2".to_string()];
    let (mut dl, mut step) = DownloadSession::new(asset.url.clone(), mirrors, 64);
    let winner = loop {
        match step {
            Step::Request(src) => {
                requested.push(dl.current_url());
                step = match src {
                    Source::Direct => dl.on_event(FetchEvent::Unreachable).0,
                    _ => dl.on_event(FetchEvent::Headers { html: false }).0,
                };
            }
            Step::ReadBody => step = dl.on_event(FetchEvent::Finished(archive.len() as u64)).0,
            Step::Accept(src) => break Some(src),
            Step::GiveUp => break None,
        }
    };
    assert_eq!(winner, Some(Source::Mirror(0)));
    assert_eq!(requested, vec![asset.url.clone(), format!("https://m1/{}", asset.url)]);

    let mut fs: HashMap<String, Vec<u8>> = HashMap::new();
    fs.insert("target".to_string(), b"old xray binary".to_vec());
    let mut backups: Vec<String> = Vec::new();
    let mut running = true;
    let mut log = Vec::new();
    let plan = UpdatePlan { running: true, backup: true, target_exists: true, spool_threshold: 1 << 20 };
    let (mut run, mut action) = UpdateRun::new(plan);
    let result = loop {
        log.push(action);
        let outcome = match action {
            Action::Download => Outcome::Downloaded(archive.len() as u64),
            Action::Extract { from_spool: false } => {
                let bin = extract_in_memory(&archive, ArchiveFormat::Zip, "xray").unwrap();
                fs.insert("extracted".to_string(), bin);
                Outcome::Done
            }
            Action::StopCore => {
                running = false;
                Outcome::Done
            }
            Action::Backup => {
                assert!(running);
                let name = backup_name("xray", 3, &backups).unwrap();
                assert!(name.starts_with("xray-"));
                let old = fs.remove("target").unwrap();
                fs.insert(format!("backups/{}", name), old);
                backups.push(name);
                Outcome::Done
            }
            Action::Rename => {
                assert!(!running);
                let bin = fs.remove("extracted").unwrap();
                fs.insert("target".to_string(), bin);
                Outcome::Done
            }
            Action::MakeExecutable => Outcome::Done,
            Action::StartCore => {
                running = true;
                Outcome::Done
            }
            Action::Finish(r) => break r,
            other => panic!("unexpected action {:?}", other),
        };
        action = run.advance(outcome);
    };
    assert_eq!(result, Completion::Success);
    assert_eq!(log, vec![
        Action::Download,
        Action::Extract { from_spool: false },
        Action::Backup,
        Action::StopCore,
        Action::Rename,
        Action::MakeExecutable,
        Action::StartCore,
        Action::Finish(Completion::Success),
    ]);
    assert!(running);
    assert_eq!(fs["target"], b"new xray binary".to_vec());
    assert_eq!(fs[&format!("backups/{}", backups[0])], b"old xray binary".to_vec());
}

#[test]
fn cross_device_rename_failure_still_installs_the_new_binary() {
    let mut fs: HashMap<String, (Vec<u8>, u32)> = HashMap::new();
    fs.insert("target".to_string(), (b"old".to_vec(), 0o755));
    fs.insert("extracted".to_string(), (b"new binary".to_vec(), 0o644));
    let plan = UpdatePlan { running: false, backup: false, target_exists: true, spool_threshold: 1 << 20 };
    let (mut run, _) = UpdateRun::new(plan);
    let mut action = run.advance(Outcome::Downloaded(10));
    let result = loop {
        let outcome = match action {
            Action::Extract { .. } => Outcome::Done,
            Action::Rename => Outcome::Failed(xkeen_ui::update::UpdateError::InstallFailed(
                xkeen_ui::update::InstallFailure::Copy,
            )),
            Action::Copy => {
                let bytes = fs["extracted"].0.clone();
                fs.insert("target".to_string(), (bytes, 0o644));
                Outcome::Done
            }
            Action::Remove(xkeen_ui::update::FileRole::Extracted) => {
                fs.remove("extracted");
                Outcome::Done
            }
            Action::MakeExecutable => {
                fs.get_mut("target").unwrap().1 = 0o755;
                Outcome::Done
            }
            Action::Finish(r) => break r,
            other => panic!("unexpected action {:?}", other),
        };
        action = run.advance(outcome);
    };
    assert_eq!(result, Completion::Success);
    assert_eq!(fs["target"], (b"new binary".to_vec(), 0o755));
    assert!(!fs.contains_key("extracted"));
}
