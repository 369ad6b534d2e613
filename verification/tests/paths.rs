use elite_presence::discord::rpc::utils::{get_discord_ipc_pipe, ipc_pipe_candidates};
use elite_presence::utils::{get_discord_ipc_pipe as ipc_pipe_path, get_last_journal, join_path};

fn names(list: &[&str]) -> Vec<Vec<u8>> {
    list.iter().map(|n| n.as_bytes().to_vec()).collect()
}

#[test]
fn join_puts_one_separator() {
    assert_eq!(join_path("/run/user/1000", "discord-ipc-0"), "/run/user/1000/discord-ipc-0");
    assert_eq!(join_path("/tmp/", "discord-ipc-0"), "/tmp/discord-ipc-0");
    assert_eq!(join_path("", "discord-ipc-0"), "discord-ipc-0");
}

#[test]
fn ipc_pipe_in_runtime_dir_or_tmp() {
    assert_eq!(ipc_pipe_path(Some("/run/user/1000".to_string())), "/run/user/1000/discord-ipc-0");
    assert_eq!(ipc_pipe_path(None), "/tmp/discord-ipc-0");
}

#[test]
fn ipc_pipe_candidates_are_numbered() {
    let candidates = ipc_pipe_candidates("/tmp");
    assert_eq!(candidates.len(), 10);
    assert_eq!(candidates[0], "/tmp/discord-ipc-0");
    assert_eq!(candidates[9], "/tmp/discord-ipc-9");
}

#[test]
fn last_existing_pipe_is_chosen() {
    let candidates = ipc_pipe_candidates("/tmp");
    let none: Vec<(String, bool)> = candidates.iter().map(|c| (c.clone(), false)).collect();
    assert_eq!(get_discord_ipc_pipe(none), None);
    let some: Vec<(String, bool)> =
        candidates.iter().enumerate().map(|(i, c)| (c.clone(), i == 2 || i == 5)).collect();
    assert_eq!(get_discord_ipc_pipe(some), Some("/tmp/discord-ipc-5".to_string()));
    assert_eq!(get_discord_ipc_pipe(vec![]), None);
}

#[test]
fn last_journal_is_greatest_log() {
    let list = names(&[
        "Journal.2024-01-02T101010.01.log",
        "Status.json",
        "Journal.2024-03-01T090000.01.log",
        "Journal.2024-02-01T090000.01.log",
        "Cargo.json",
    ]);
    assert_eq!(get_last_journal(&list), Some(2));
}

#[test]
fn last_journal_needs_log_extension() {
    assert_eq!(get_last_journal(&names(&["Status.json", ".log", "log", "x.logs"])), None);
    assert_eq!(get_last_journal(&names(&[])), None);
    assert_eq!(get_last_journal(&names(&[".log", "a.log"])), Some(1));
    assert_eq!(get_last_journal(&names(&["a.b.log", "a.log"])), Some(1));
    assert_eq!(get_last_journal(&names(&["a.m.log", "a.log"])), Some(0));
}

#[test]
fn last_journal_byte_order() {
    // a prefix comes first
    assert_eq!(get_last_journal(&names(&["ab.log", "a.log"])), Some(0));
    assert_eq!(get_last_journal(&names(&["Journal.9.log", "Journal.10.log"])), Some(0));
}
