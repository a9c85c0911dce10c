use wasio::commands::{Commands, NamedCommand, VirtualCommand};
use wasio::errno::Errno;
use wasio::fd_table::{FdEntry, FdTable, Resource, ALL_RIGHTS, RIGHT_FD_READ, RIGHT_SOCK_SEND};
use wasio::http::{Capabilities, HttpClientCapabilityV1, WasixHttpClientImpl};
use wasio::login::Login;
use wasio::memory::GuestMemory;
use wasio::send_file::{read_buffer_chunk, sock_send_file_begin, sock_send_file_finish, SourceKind};
use wasio::sockaddr::{decode_socket_addr, encode_socket_addr, SockAddr};
use wasio::socket::{TcpSocket, SOCK_STREAM};
use wasio::sockaddr::AF_INET;
use wasio::wapm::{
    wapm_extract_version, WapmWebQuery, WapmWebQueryData, WapmWebQueryGetPackage,
    WapmWebQueryGetPackageLastVersionDistribution, WapmWebQueryGetPackageVersion,
};
use wasio::zero_file::{SeekFrom, ZeroFile};

#[test]
fn ipv4_wire_round_trip() {
    let mut mem = GuestMemory::new(64);
    let a = SockAddr::V4 { ip: [192, 0, 2, 33], port: 0x1f90 };
    assert_eq!(encode_socket_addr(&mut mem, 8, 16, a), Ok(16));
    let raw = mem.read_bytes(8, 16).unwrap();
    assert_eq!(&raw[..8], &[1, 0, 0x1f, 0x90, 192, 0, 2, 33]);
    assert_eq!(&raw[8..], &[0u8; 8]);
    assert_eq!(decode_socket_addr(&mem, 8, 16), Ok(a));
}

#[test]
fn ipv6_wire_round_trip() {
    let mut mem = GuestMemory::new(64);
    let ip = [0x20, 0x01, 0x0d, 0xb8, 0, 0, 0, 0, 0, 0, 0, 0, 0, 0, 0, 1];
    let a = SockAddr::V6 { ip, port: 65535, flowinfo: 0, scope_id: 0 };
    assert_eq!(encode_socket_addr(&mut mem, 4, 28, a), Ok(28));
    let raw = mem.read_bytes(4, 28).unwrap();
    assert_eq!(&raw[..4], &[2, 0, 0xff, 0xff]);
    assert_eq!(&raw[8..24], &ip);
    assert_eq!(decode_socket_addr(&mem, 4, 28), Ok(a));
}

#[test]
fn wire_sizes_are_exact() {
    let mut mem = GuestMemory::new(64);
    let a = SockAddr::V4 { ip: [1, 2, 3, 4], port: 5 };
    assert_eq!(encode_socket_addr(&mut mem, 0, 28, a), Err(Errno::Inval));
    assert_eq!(encode_socket_addr(&mut mem, 0, 15, a), Err(Errno::Inval));
    assert_eq!(encode_socket_addr(&mut mem, 50, 16, a), Err(Errno::Fault));
    assert_eq!(mem.read_bytes(0, 64).unwrap(), vec![0u8; 64]);
    assert_eq!(decode_socket_addr(&mem, 0, 17), Err(Errno::Inval));
    assert_eq!(decode_socket_addr(&mem, 40, 28), Err(Errno::Fault));
}

#[test]
fn decode_reads_ipv6_flow_and_scope() {
    let mut mem = GuestMemory::new(32);
    let mut raw = vec![0u8; 28];
    raw[2] = 0x01;
    raw[3] = 0xbb;
    raw[4] = 0x78;
    raw[5] = 0x56;
    raw[6] = 0x34;
    raw[7] = 0x12;
    raw[8] = 0xfe;
    raw[9] = 0x80;
    raw[24] = 3;
    mem.write_bytes(0, &raw).unwrap();
    match decode_socket_addr(&mem, 0, 28).unwrap() {
        SockAddr::V6 { ip, port, flowinfo, scope_id } => {
            assert_eq!(port, 443);
            assert_eq!(flowinfo, 0x12345678);
            assert_eq!(scope_id, 3);
            assert_eq!(ip[0], 0xfe);
            assert_eq!(ip[1], 0x80);
        }
        other => panic!("unexpected {:?}", other),
    }
}

fn connected_socket_entry() -> FdEntry {
    let mut s = TcpSocket::create(AF_INET, SOCK_STREAM).unwrap();
    s.connect(
        SockAddr::V4 { ip: [127, 0, 0, 1], port: 1 },
        SockAddr::V4 { ip: [127, 0, 0, 1], port: 2 },
    )
    .unwrap();
    FdEntry {
        rights_base: ALL_RIGHTS,
        rights_inheriting: ALL_RIGHTS,
        offset: 0,
        name: "sock".to_string(),
        resource: Resource::Socket { socket: s },
    }
}

fn table_with_std() -> FdTable {
    let mut fds = FdTable::new();
    for name in ["stdin", "stdout", "stderr"] {
        fds.open(FdEntry {
            rights_base: ALL_RIGHTS,
            rights_inheriting: ALL_RIGHTS,
            offset: 0,
            name: name.to_string(),
            resource: Resource::Pipe,
        })
        .unwrap();
    }
    fds
}

/// Drives a transfer from an in-memory buffer, with a socket that takes
/// every byte, and returns the total and the bytes sent.
fn run_buffer_transfer(data: Vec<u8>, offset: u64, count: u64) -> (u64, Vec<u8>) {
    let mut fds = table_with_std();
    let src = fds
        .open(FdEntry {
            rights_base: RIGHT_FD_READ,
            rights_inheriting: 0,
            offset: 0,
            name: "buf".to_string(),
            resource: Resource::Buffer { data },
        })
        .unwrap();
    let sock = fds.open(connected_socket_entry()).unwrap();
    let mut t = sock_send_file_begin(&mut fds, sock, src, offset, count).unwrap();
    assert_eq!(t.source(), SourceKind::Buffer);
    let mut sent = Vec::new();
    loop {
        let chunk = t.next_chunk();
        if chunk == 0 {
            break;
        }
        assert!(chunk <= 4096);
        let bytes = read_buffer_chunk(&fds, src, chunk).unwrap();
        sent.extend_from_slice(&bytes);
        t.record_chunk(&mut fds, bytes.len() as u64, bytes.len() as u64).unwrap();
    }
    let mut mem = GuestMemory::new(16);
    assert_eq!(sock_send_file_finish(&mut mem, &t, 8), Errno::Success);
    assert_eq!(mem.read_u64(8).unwrap(), t.total());
    assert_eq!(sock_send_file_finish(&mut mem, &t, 9), Errno::Fault);
    (t.total(), sent)
}

#[test]
fn send_file_stops_at_end_of_source() {
    let data: Vec<u8> = (0..10_000u32).map(|i| (i % 251) as u8).collect();
    let (total, sent) = run_buffer_transfer(data.clone(), 0, 20_000);
    assert_eq!(total, 10_000);
    assert_eq!(sent, data);
}

#[test]
fn send_file_sends_count_when_source_is_longer() {
    let data: Vec<u8> = (0..10_000u32).map(|i| (i % 7) as u8).collect();
    let (total, sent) = run_buffer_transfer(data.clone(), 100, 5000);
    assert_eq!(total, 5000);
    assert_eq!(sent, data[100..5100].to_vec());
}

#[test]
fn send_file_from_offset_past_end_sends_nothing() {
    let (total, sent) = run_buffer_transfer(vec![1, 2, 3], 10, 100);
    assert_eq!(total, 0);
    assert!(sent.is_empty());
}

#[test]
fn send_file_source_errors() {
    let mut fds = table_with_std();
    let sock = fds.open(connected_socket_entry()).unwrap();
    let dir = fds
        .open(FdEntry {
            rights_base: ALL_RIGHTS,
            rights_inheriting: 0,
            offset: 0,
            name: "dir".to_string(),
            resource: Resource::Directory,
        })
        .unwrap();
    let unreadable = fds
        .open(FdEntry {
            rights_base: ALL_RIGHTS & !RIGHT_FD_READ,
            rights_inheriting: 0,
            offset: 0,
            name: "file".to_string(),
            resource: Resource::RegularFile { open: true },
        })
        .unwrap();
    assert_eq!(sock_send_file_begin(&mut fds, sock, dir, 0, 10).err(), Some(Errno::Isdir));
    assert_eq!(sock_send_file_begin(&mut fds, sock, unreadable, 0, 10).err(), Some(Errno::Access));
    assert_eq!(sock_send_file_begin(&mut fds, sock, 1, 0, 10).err(), Some(Errno::Inval));
    assert_eq!(sock_send_file_begin(&mut fds, sock, 2, 0, 10).err(), Some(Errno::Inval));
    assert_eq!(sock_send_file_begin(&mut fds, sock, 99, 0, 10).err(), Some(Errno::Badf));
    let t = sock_send_file_begin(&mut fds, sock, 0, 0, 10).unwrap();
    assert_eq!(t.source(), SourceKind::Stdin);
    // the destination must be a connected socket with the send right
    assert_eq!(sock_send_file_begin(&mut fds, dir, 0, 0, 10).err(), Some(Errno::Notsock));
    let unconnected = fds
        .open(FdEntry {
            rights_base: ALL_RIGHTS,
            rights_inheriting: 0,
            offset: 0,
            name: "s".to_string(),
            resource: Resource::Socket { socket: TcpSocket::create(AF_INET, SOCK_STREAM).unwrap() },
        })
        .unwrap();
    assert_eq!(sock_send_file_begin(&mut fds, unconnected, 0, 0, 10).err(), Some(Errno::Inval));
    let mut no_send = connected_socket_entry();
    no_send.rights_base = ALL_RIGHTS & !RIGHT_SOCK_SEND;
    let ns = fds.open(no_send).unwrap();
    assert_eq!(sock_send_file_begin(&mut fds, ns, 0, 0, 10).err(), Some(Errno::Access));
}

#[test]
fn send_file_moves_source_offset() {
    let mut fds = table_with_std();
    let src = fds
        .open(FdEntry {
            rights_base: ALL_RIGHTS,
            rights_inheriting: 0,
            offset: 0,
            name: "f".to_string(),
            resource: Resource::RegularFile { open: true },
        })
        .unwrap();
    let sock = fds.open(connected_socket_entry()).unwrap();
    let mut t = sock_send_file_begin(&mut fds, sock, src, 500, 6000).unwrap();
    assert_eq!(fds.get(src).unwrap().offset, 500);
    assert_eq!(t.next_chunk(), 4096);
    t.record_chunk(&mut fds, 4096, 4000).unwrap();
    assert_eq!(fds.get(src).unwrap().offset, 4596);
    assert_eq!(t.next_chunk(), 1904);
    t.record_chunk(&mut fds, 1000, 1000).unwrap();
    assert_eq!(fds.get(src).unwrap().offset, 5596);
    assert_eq!(t.next_chunk(), 0);
    assert_eq!(t.total(), 5000);
}

fn echo(name: &str) -> NamedCommand {
    NamedCommand::new(name)
}

#[test]
fn commands_are_found_under_bin() {
    let mut cmds: Commands<NamedCommand> = Commands::new();
    cmds.register_command(echo("echo"));
    assert!(cmds.command_exists("/bin/echo"));
    assert!(!cmds.command_exists("echo"));
    assert_eq!(cmds.get("/bin/echo"), Some(&echo("echo")));
    cmds.register_command_with_path(echo("other"), "/usr/bin/x".to_string());
    assert_eq!(cmds.get("/usr/bin/x"), Some(&echo("other")));
    cmds.register_command_with_path(echo("again"), "/bin/echo".to_string());
    assert_eq!(cmds.get("/bin/echo"), Some(&echo("again")));
    assert_eq!(cmds.exec("/bin/echo").ok(), Some(&echo("again")));
    assert_eq!(cmds.get("/usr/bin/x").map(|c| c.name()), Some("other"));
    cmds.register_command(echo("cat"));
    assert_eq!(cmds.get("/usr/bin/x"), Some(&echo("other")));
    assert_eq!(cmds.get("/bin/echo"), Some(&echo("again")));
    assert_eq!(cmds.get("/bin/cat"), Some(&echo("cat")));
}

#[test]
fn unknown_command_reports_noent() {
    let cmds: Commands<NamedCommand> = Commands::new();
    let err = cmds.exec("/bin/nope").unwrap_err();
    assert_eq!(err.exit_code, 44);
    assert_eq!(err.message, "wasm command unknown - /bin/nope\r\n");
    assert_eq!(cmds.get("/bin/nope"), None);
}

#[test]
fn zero_file_reads_zeros_and_swallows_writes() {
    let mut z = ZeroFile::default();
    let mut buf = vec![7u8; 10];
    assert_eq!(z.read(&mut buf), Ok(10));
    assert_eq!(buf, vec![0u8; 10]);
    assert_eq!(z.write(&[1, 2, 3]), Ok(3));
    assert_eq!(z.seek(SeekFrom::Start(100)), Ok(0));
    assert_eq!(z.size(), 0);
    assert_eq!(z.bytes_available(), Ok(0));
    assert_eq!(z.get_fd(), None);
    assert!(z.flush().is_ok());
    assert!(z.set_len(5).is_ok());
    assert!(z.unlink().is_ok());
    assert_eq!(z.last_accessed() + z.last_modified() + z.created_time(), 0);
}

fn caps(allow_all: bool, hosts: &[&str], insecure: bool) -> Capabilities {
    Capabilities {
        insecure_allow_all: insecure,
        http: HttpClientCapabilityV1 {
            allow_all_hosts: allow_all,
            allowed_hosts: hosts.iter().map(|h| h.to_string()).collect(),
        },
    }
}

#[test]
fn http_client_follows_capabilities() {
    let mut denied = WasixHttpClientImpl::new(caps(false, &[], false), true);
    assert_eq!(denied.client_new().unwrap_err(), "Permission denied - http client not enabled");
    let mut none = WasixHttpClientImpl::new(caps(false, &["a.example"], false), false);
    assert_eq!(none.client_new().unwrap_err(), "No http client available");
    let mut some = WasixHttpClientImpl::new(caps(false, &["a.example"], false), true);
    let client = some.client_new().unwrap();
    assert!(client.check_host("a.example").is_ok());
    assert_eq!(
        client.check_host("b.example").unwrap_err(),
        "Permission denied: http capability not enabled for host 'b.example'"
    );
    let mut all = WasixHttpClientImpl::new(caps(false, &[], true), true);
    assert!(all.client_new().unwrap().check_host("anything").is_ok());
    assert!(HttpClientCapabilityV1::new_allow_all().can_access_domain("x"));
}

fn version(v: &str, url: Option<&str>) -> WapmWebQueryGetPackageVersion {
    WapmWebQueryGetPackageVersion {
        version: v.to_string(),
        distribution: WapmWebQueryGetPackageLastVersionDistribution {
            pirita_download_url: url.map(|u| u.to_string()),
        },
    }
}

#[test]
fn extract_version_prefers_specific_version() {
    let q = WapmWebQuery {
        data: WapmWebQueryData {
            get_package: Some(WapmWebQueryGetPackage { last_version: version("2.0.0", Some("u2")) }),
            get_package_version: Some(version("1.0.0", Some("u1"))),
        },
    };
    let d = wapm_extract_version(&q).unwrap();
    assert_eq!((d.url.as_str(), d.version.as_str()), ("u1", "1.0.0"));
    let q = WapmWebQuery {
        data: WapmWebQueryData {
            get_package: Some(WapmWebQueryGetPackage { last_version: version("2.0.0", Some("u2")) }),
            get_package_version: None,
        },
    };
    let d = wapm_extract_version(&q).unwrap();
    assert_eq!((d.url.as_str(), d.version.as_str()), ("u2", "2.0.0"));
    let q = WapmWebQuery {
        data: WapmWebQueryData { get_package: None, get_package_version: Some(version("1.0.0", None)) },
    };
    assert!(wapm_extract_version(&q).is_none());
    let q = WapmWebQuery { data: WapmWebQueryData { get_package: None, get_package_version: None } };
    assert!(wapm_extract_version(&q).is_none());
}

#[test]
fn login_defaults() {
    let l = Login { registry: None, token: None };
    assert_eq!(l.registry_or_default(), "https://registry.wapm.io");
    assert_eq!(l.given_token(), None);
    let l = Login { registry: Some("r".to_string()), token: Some("t".to_string()) };
    assert_eq!(l.registry_or_default(), "r");
    assert_eq!(l.given_token(), Some("t".to_string()));
}

#[test]
fn send_file_of_zero_bytes_is_done_at_once() {
    let (total, sent) = run_buffer_transfer(vec![1, 2, 3], 0, 0);
    assert_eq!(total, 0);
    assert!(sent.is_empty());
}

#[test]
fn send_file_chunks_are_at_most_4096() {
    let data = vec![9u8; 4097];
    let (total, sent) = run_buffer_transfer(data.clone(), 0, 4097);
    assert_eq!(total, 4097);
    assert_eq!(sent, data);
}
