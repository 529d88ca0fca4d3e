use hostbridge::codec::Base64File;
use hostbridge::errors::RpcError;
use hostbridge::gateway::RpcFile;
use hostbridge::gateway::backup_path;
use hostbridge::gateway::open_file;
use hostbridge::gateway::path_has_extension;
use hostbridge::gateway::write_file;

#[test]
fn extension_detection() {
    assert!(path_has_extension(&"a.ext".to_string()));
    assert!(path_has_extension(&"/home/user/save.MassEffectSave".to_string()));
    assert!(path_has_extension(&"a.".to_string()));
    assert!(!path_has_extension(&"save".to_string()));
    assert!(!path_has_extension(&"/dir.d/file".to_string()));
    assert!(!path_has_extension(&".bashrc".to_string()));
    assert!(!path_has_extension(&"".to_string()));
    assert!(!path_has_extension(&"dir/".to_string()));
    assert!(path_has_extension(&"C:\\saves\\a.ext".to_string()));
    assert!(!path_has_extension(&"C:\\sa.ves\\file".to_string()));
}

#[test]
fn backup_path_appends_suffix() {
    assert_eq!(backup_path(&"a.ext".to_string()), "a.ext.bak");
    assert_eq!(backup_path(&"/d/save.sav".to_string()), "/d/save.sav.bak");
}

#[test]
fn open_file_builds_round_tripping_envelope() {
    let bytes: Vec<u8> = vec![9, 8, 7, 6];
    let rpc_file = open_file("/resolved/save.sav".to_string(), bytes.clone());
    assert_eq!(rpc_file.path, "/resolved/save.sav");
    assert_eq!(rpc_file.file.unencoded_size, 4);
    assert_eq!(rpc_file.file.decode().unwrap(), bytes);
}

#[test]
fn write_file_plans_backup_for_existing_destination() {
    let content: Vec<u8> = b"new content".to_vec();
    let rpc_file = RpcFile { path: "a.ext".to_string(), file: Base64File::encode(&content) };
    let plan = write_file(rpc_file, true);
    assert_eq!(plan.path, "a.ext");
    assert_eq!(plan.backup_to, Some("a.ext.bak".to_string()));
    assert_eq!(plan.content.unwrap(), content);
}

#[test]
fn write_file_plans_no_backup_for_missing_destination() {
    let content: Vec<u8> = b"fresh".to_vec();
    let rpc_file = RpcFile { path: "a.ext".to_string(), file: Base64File::encode(&content) };
    let plan = write_file(rpc_file, false);
    assert_eq!(plan.backup_to, None);
    assert_eq!(plan.content.unwrap(), content);
}

#[test]
fn write_file_plans_no_backup_without_extension() {
    let content: Vec<u8> = b"bytes".to_vec();
    let rpc_file = RpcFile { path: "savefile".to_string(), file: Base64File::encode(&content) };
    let plan = write_file(rpc_file, true);
    assert_eq!(plan.backup_to, None);
}

#[test]
fn write_file_reports_bad_payload_after_backup_decision() {
    let bad = Base64File { unencoded_size: 3, base64: "####".to_string() };
    let rpc_file = RpcFile { path: "a.ext".to_string(), file: bad };
    let plan = write_file(rpc_file, true);
    assert_eq!(plan.backup_to, Some("a.ext.bak".to_string()));
    assert!(matches!(plan.content, Err(RpcError::DecodeError)));
}
