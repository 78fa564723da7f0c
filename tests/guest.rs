use plugin_host::codec::{decode_plugin, decode_verdict};
use plugin_host::error::Error;
use plugin_host::frame::{read_frame, MEMORY_START};
use plugin_host::guest::{new, run, Checker, Guest, TestChecker};

fn shared_with(input: &str) -> Vec<u8> {
    let mut shared = vec![0u8; 64];
    shared[MEMORY_START..MEMORY_START + input.len()].copy_from_slice(input.as_bytes());
    shared
}

fn verdict_at(guest: &Guest<TestChecker>, addr: u32) -> Option<String> {
    match read_frame(&guest.memory, addr as usize).unwrap() {
        Some(p) => decode_verdict(&p).unwrap(),
        None => None,
    }
}

#[test]
fn test_checker_finds_word() {
    let c = TestChecker::new();
    assert_eq!(c.check("this is a test"), Some("FOUND".to_string()));
    assert_eq!(c.check("no match here"), None);
    assert_eq!(c.check("tes t"), None);
}

#[test]
fn new_writes_metadata_frame() {
    let mut guest = Guest::with_memory(64);
    let addr = new(&mut guest, TestChecker::new(), "Plugin".to_string()).unwrap();
    assert_eq!(addr as usize, MEMORY_START);
    let payload = read_frame(&guest.memory, addr as usize).unwrap().unwrap();
    let plugin = decode_plugin(&payload).unwrap();
    assert_eq!(plugin.address, 1);
    assert_eq!(plugin.name, "Plugin");
    assert_eq!(guest.checkers.len(), 1);
}

#[test]
fn new_without_room_fails() {
    let mut guest: Guest<TestChecker> = Guest::with_memory(4);
    assert!(matches!(new(&mut guest, TestChecker::new(), "Plugin".to_string()), Err(Error::InvalidOffset)));
    assert_eq!(guest.checkers.len(), 0);
}

#[test]
fn end_to_end_match_and_no_match() {
    let mut guest = Guest::with_memory(64);
    let h = {
        let a = new(&mut guest, TestChecker::new(), "Plugin".to_string()).unwrap();
        decode_plugin(&read_frame(&guest.memory, a as usize).unwrap().unwrap()).unwrap().address
    };
    let input = "this is a test";
    let addr = run(&mut guest, &shared_with(input), h, MEMORY_START as u32, input.len() as u32).unwrap();
    assert_eq!(verdict_at(&guest, addr), Some("FOUND".to_string()));
    let input = "no match here";
    let addr = run(&mut guest, &shared_with(input), h, MEMORY_START as u32, input.len() as u32).unwrap();
    assert_eq!(read_frame(&guest.memory, addr as usize), Ok(None));
    assert_eq!(verdict_at(&guest, addr), None);
}

#[test]
fn handle_stays_valid_across_runs() {
    let mut guest = Guest::with_memory(64);
    new(&mut guest, TestChecker::new(), "First".to_string()).unwrap();
    new(&mut guest, TestChecker::new(), "Second".to_string()).unwrap();
    for input in ["a test", "nothing", "test again"] {
        let addr = run(&mut guest, &shared_with(input), 2, MEMORY_START as u32, input.len() as u32).unwrap();
        let expected = if input.contains("test") { Some("FOUND".to_string()) } else { None };
        assert_eq!(verdict_at(&guest, addr), expected);
        assert_eq!(guest.checkers.len(), 2);
    }
}

#[test]
fn run_rejects_bad_handles_and_input() {
    let mut guest = Guest::with_memory(64);
    new(&mut guest, TestChecker::new(), "Plugin".to_string()).unwrap();
    let shared = shared_with("test");
    assert!(matches!(run(&mut guest, &shared, 0, 1, 4), Err(Error::NullPtr)));
    assert!(matches!(run(&mut guest, &shared, 2, 1, 4), Err(Error::UnknownHandle)));
    assert!(matches!(run(&mut guest, &shared, 1, 60, 5), Err(Error::InvalidOffset)));
    let bad = vec![0u8, 0xff, 0xfe];
    assert!(matches!(run(&mut guest, &bad, 1, 1, 2), Err(Error::Utf8)));
}
