use rustix::fs::{open, Mode, OFlags};
use rustix::io::read;
use setns_shell::error::Error;
use setns_shell::parse::{read_argument, Args, RawArgs, ARGUMENT_LIMIT};
use std::io::Write;

// Reads the whole file at `path`, or gives `None` where that fails.
fn read_file(path: &str) -> Option<Vec<u8>> {
    let file = open(path, OFlags::RDONLY, Mode::empty()).ok()?;
    let mut contents = Vec::new();
    let mut chunk = [0u8; 4096];
    loop {
        let n: usize = read(&file, &mut chunk[..]).ok()?;
        if n == 0 {
            return Some(contents);
        }
        contents.extend_from_slice(&chunk[..n]);
    }
}

// Decodes as a caller does: finds the path, reads the file, hands both over.
fn decode(args: Option<&RawArgs>) -> Result<Args, Error> {
    let contents = match Args::cache_path(args) {
        Ok(path) => read_file(&path),
        Err(_) => None,
    };
    Args::parse(args, contents)
}

fn raw(pid: Option<&[u8]>, path: Option<&[u8]>) -> RawArgs {
    RawArgs { pid: pid.map(|b| b.to_vec()), path: path.map(|b| b.to_vec()) }
}

// The path of `file` as a C string, terminator and all.
fn path_bytes(file: &tempfile::NamedTempFile) -> Vec<u8> {
    let mut bytes = file.path().to_str().unwrap().as_bytes().to_vec();
    bytes.push(0);
    bytes
}

#[test]
fn args_parse_fails_null_array() {
    assert!(decode(None).is_err());
    assert_eq!(decode(None), Err(Error::MissingArgument));
}

#[test]
fn args_parse_fails_null_arguments() {
    let zwc_file = tempfile::NamedTempFile::new().unwrap();
    let zwc_path = path_bytes(&zwc_file);
    assert!(decode(Some(&raw(Some(b"577\0"), None))).is_err());
    assert!(decode(Some(&raw(None, Some(&zwc_path)))).is_err());
    assert_eq!(decode(Some(&raw(Some(b"577\0"), None))), Err(Error::MissingArgument));
    assert_eq!(decode(Some(&raw(None, Some(&zwc_path)))), Err(Error::MissingArgument));
    assert_eq!(decode(Some(&raw(None, None))), Err(Error::MissingArgument));
}

#[test]
fn args_parse_builds_return_correctly() {
    let zwc_file = tempfile::NamedTempFile::new().unwrap();
    let zwc_path = path_bytes(&zwc_file);
    assert_eq!(
        decode(Some(&raw(Some(b"577\0"), Some(&zwc_path)))).unwrap(),
        Args { pid: 577, zwc_data: vec![] }
    );
}

#[test]
fn args_parse_parses_pid_correctly() {
    let zwc_file = tempfile::NamedTempFile::new().unwrap();
    let zwc_path = path_bytes(&zwc_file);
    assert_eq!(decode(Some(&raw(Some(b"5778\0"), Some(&zwc_path)))).unwrap().pid, 5778);
}

#[test]
fn args_parse_reads_text_correctly() {
    let mut zwc_file = tempfile::NamedTempFile::new().unwrap();
    let zwc_path = path_bytes(&zwc_file);
    let write_file = zwc_file.as_file_mut();
    write_file.write_all(b"test_data").unwrap();
    write_file.flush().unwrap();
    write_file.sync_all().unwrap();

    assert_eq!(
        decode(Some(&raw(Some(b"577\0"), Some(&zwc_path)))).unwrap().zwc_data,
        b"test_data"
    );
}

#[test]
fn args_parse_fails_invalid_pids() {
    let zwc_file = tempfile::NamedTempFile::new().unwrap();
    let zwc_path = path_bytes(&zwc_file);
    assert!(decode(Some(&raw(Some(b"five\0"), Some(&zwc_path)))).is_err());
    assert!(decode(Some(&raw(Some(b"\0"), Some(&zwc_path)))).is_err());
    assert!(decode(Some(&raw(Some(b"\xFE\0"), Some(&zwc_path)))).is_err());
    assert_eq!(decode(Some(&raw(Some(b"five\0"), Some(&zwc_path)))), Err(Error::InvalidPid));
    assert_eq!(decode(Some(&raw(Some(b"\0"), Some(&zwc_path)))), Err(Error::InvalidPid));
    assert_eq!(decode(Some(&raw(Some(b"\xFE\0"), Some(&zwc_path)))), Err(Error::InvalidPid));
}

#[test]
fn args_parse_fails_invalid_paths() {
    assert!(decode(Some(&raw(Some(b"577\0"), Some(b"\0")))).is_err());
    assert!(decode(Some(&raw(Some(b"577\0"), Some(b"\xFE\0")))).is_err());
    assert_eq!(decode(Some(&raw(Some(b"577\0"), Some(b"\0")))), Err(Error::IoError));
    assert_eq!(decode(Some(&raw(Some(b"577\0"), Some(b"\xFE\0")))), Err(Error::InvalidPath));
}

#[test]
fn args_parse_fails_missing_files() {
    let zwc_file = tempfile::NamedTempFile::new().unwrap();
    let zwc_path = path_bytes(&zwc_file);
    std::mem::drop(zwc_file);

    assert!(decode(Some(&raw(Some(b"577\0"), Some(&zwc_path)))).is_err());
    assert_eq!(decode(Some(&raw(Some(b"577\0"), Some(&zwc_path)))), Err(Error::IoError));
}

#[test]
fn cache_path_is_the_second_argument_as_text() {
    let args = raw(Some(b"577\0"), Some(b"/var/cache/full.zwc\0"));
    assert_eq!(Args::cache_path(Some(&args)), Ok("/var/cache/full.zwc".to_string()));
    let args = raw(Some(b"577\0"), Some("/tmp/caf\u{e9}.zwc\0".as_bytes()));
    assert_eq!(Args::cache_path(Some(&args)), Ok("/tmp/caf\u{e9}.zwc".to_string()));
    // The path is looked at before the process id is.
    let args = raw(Some(b"five\0"), Some(b"/var/cache/full.zwc\0"));
    assert_eq!(Args::cache_path(Some(&args)), Ok("/var/cache/full.zwc".to_string()));
    assert_eq!(Args::cache_path(None), Err(Error::MissingArgument));
    let args = raw(Some(b"577\0"), Some(b"\xC3\x28\0"));
    assert_eq!(Args::cache_path(Some(&args)), Err(Error::InvalidPath));
}

#[test]
fn errors_come_in_the_order_of_decoding() {
    // A path that is no text outranks a file that was not read and a bad id.
    let args = raw(Some(b"five\0"), Some(b"\xFE\0"));
    assert_eq!(Args::parse(Some(&args), None), Err(Error::InvalidPath));
    assert_eq!(Args::parse(Some(&args), Some(vec![1, 2, 3])), Err(Error::InvalidPath));
    // A file that was not read outranks a bad id.
    let args = raw(Some(b"five\0"), Some(b"/nowhere\0"));
    assert_eq!(Args::parse(Some(&args), None), Err(Error::IoError));
    assert_eq!(Args::parse(Some(&args), Some(vec![])), Err(Error::InvalidPid));
    // An absent argument outranks everything.
    let args = raw(None, Some(b"\xFE\0"));
    assert_eq!(Args::parse(Some(&args), Some(vec![])), Err(Error::MissingArgument));
}

#[test]
fn decoding_twice_gives_equal_requests() {
    let args = raw(Some(b"577\0"), Some(b"/some/where\0"));
    let first = Args::parse(Some(&args), Some(b"blob".to_vec()));
    let second = Args::parse(Some(&args), Some(b"blob".to_vec()));
    assert_eq!(first, second);
    assert_eq!(first, Ok(Args { pid: 577, zwc_data: b"blob".to_vec() }));
}

#[test]
fn decoded_bytes_are_the_contents_unchanged() {
    let args = raw(Some(b"1\0"), Some(b"/some/where\0"));
    let blob: Vec<u8> = (0..=255u8).collect();
    let decoded = Args::parse(Some(&args), Some(blob.clone())).unwrap();
    assert_eq!(decoded.zwc_data, blob);
    assert_eq!(decoded.pid, 1);
}

#[test]
fn argument_ends_at_its_terminator() {
    assert_eq!(read_argument(b"577\0"), Some(b"577".to_vec()));
    assert_eq!(read_argument(b"577\0 and what lies behind\0"), Some(b"577".to_vec()));
    assert_eq!(read_argument(b"\0"), Some(vec![]));
}

#[test]
fn argument_without_a_terminator_is_none() {
    assert_eq!(read_argument(b"577"), None);
    assert_eq!(read_argument(b""), None);
}

#[test]
fn argument_must_be_shorter_than_the_limit() {
    assert_eq!(ARGUMENT_LIMIT, 4096);
    let mut longest = vec![b'a'; ARGUMENT_LIMIT - 1];
    longest.push(0);
    assert_eq!(read_argument(&longest), Some(vec![b'a'; ARGUMENT_LIMIT - 1]));
    let mut too_long = vec![b'a'; ARGUMENT_LIMIT];
    too_long.push(0);
    assert_eq!(read_argument(&too_long), None);
    assert_eq!(read_argument(&vec![b'a'; ARGUMENT_LIMIT]), None);
}

#[test]
fn unterminated_arguments_are_malformed() {
    let zwc_file = tempfile::NamedTempFile::new().unwrap();
    let zwc_path = path_bytes(&zwc_file);
    assert_eq!(decode(Some(&raw(Some(b"577"), Some(&zwc_path)))), Err(Error::InvalidPid));
    let unterminated = &zwc_path[..zwc_path.len() - 1];
    assert_eq!(decode(Some(&raw(Some(b"577\0"), Some(unterminated)))), Err(Error::InvalidPath));
    let mut digits = vec![b'0'; ARGUMENT_LIMIT];
    digits.push(b'1');
    digits.push(0);
    assert_eq!(decode(Some(&raw(Some(&digits), Some(&zwc_path)))), Err(Error::InvalidPid));
}

#[test]
fn bytes_behind_the_terminator_are_not_looked_at() {
    let args = raw(Some(b"577\0\xff\xfe"), Some(b"/some/where\0\xff"));
    assert_eq!(Args::cache_path(Some(&args)), Ok("/some/where".to_string()));
    assert_eq!(
        Args::parse(Some(&args), Some(vec![7])),
        Ok(Args { pid: 577, zwc_data: vec![7] })
    );
}
