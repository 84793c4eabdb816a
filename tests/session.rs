use kvshell::command::{parse_input, Command};
use kvshell::shell::{execute, Reply};
use kvshell::store::KvStore;

fn run(store: &mut KvStore, line: &str) -> Reply {
    execute(store, &parse_input(line))
}

#[test]
fn session_insert_get_update_delete() {
    let db = sled::Config::new().temporary(true).open().unwrap();
    let mut s = KvStore::new(db);
    assert_eq!(run(&mut s, "INSERT name alice\n"), Reply::Inserted);
    assert_eq!(run(&mut s, "GET name\n"), Reply::Value(b"alice".to_vec()));
    assert_eq!(run(&mut s, "UPDATE name bob\n"), Reply::Updated);
    assert_eq!(run(&mut s, "GET name\n"), Reply::Value(b"bob".to_vec()));
    assert_eq!(run(&mut s, "DELETE name\n"), Reply::Deleted);
    assert_eq!(run(&mut s, "DELETE name\n"), Reply::Missing);
    assert_eq!(run(&mut s, "GET name\n"), Reply::Missing);
    assert_eq!(run(&mut s, "UPDATE name carol\n"), Reply::Missing);
    assert_eq!(run(&mut s, "GET name\n"), Reply::Missing);
}

#[test]
fn session_list_in_key_order() {
    let db = sled::Config::new().temporary(true).open().unwrap();
    let mut s = KvStore::new(db);
    assert_eq!(run(&mut s, "LIST\n"), Reply::Listed(Vec::new()));
    run(&mut s, "INSERT a 1\n");
    run(&mut s, "INSERT c 3\n");
    run(&mut s, "INSERT b 2\n");
    assert_eq!(
        run(&mut s, "LIST\n"),
        Reply::Listed(vec![
            (b"a".to_vec(), b"1".to_vec()),
            (b"b".to_vec(), b"2".to_vec()),
            (b"c".to_vec(), b"3".to_vec()),
        ])
    );
}

#[test]
fn session_control_commands() {
    let db = sled::Config::new().temporary(true).open().unwrap();
    let mut s = KvStore::new(db);
    assert_eq!(execute(&mut s, &Command::Help), Reply::Help);
    assert_eq!(run(&mut s, "EXIT\n"), Reply::Exit);
    assert_eq!(run(&mut s, "BOGUS\n"), Reply::Invalid);
    assert_eq!(run(&mut s, "LIST\n"), Reply::Listed(Vec::new()));
}
