use reuseport::addr::{BindAddr, HostIp};
use reuseport::listener::build_listener;
use reuseport::platform::Platform;
use reuseport::response::{pid_body, root_body};
use tokio::io::{AsyncReadExt, AsyncWriteExt};

/// None when the environment has no route to loopback (nothing can be
/// observed over TCP there); panics on any other connection error.
async fn connect(port: u16) -> Option<tokio::net::TcpStream> {
    match tokio::net::TcpStream::connect(("127.0.0.1", port)).await {
        Ok(s) => Some(s),
        Err(e) if e.raw_os_error() == Some(101) => None,
        Err(e) => panic!("connect: {}", e),
    }
}

async fn fetch(s: &mut tokio::net::TcpStream, path: &str) -> (String, String) {
    let req = format!("GET {} HTTP/1.1\r\nHost: localhost\r\nConnection: close\r\n\r\n", path);
    s.write_all(req.as_bytes()).await.unwrap();
    let mut buf = Vec::new();
    s.read_to_end(&mut buf).await.unwrap();
    let text = String::from_utf8(buf).unwrap();
    let mut parts = text.splitn(2, "\r\n\r\n");
    let head = parts.next().unwrap().to_string();
    let body = parts.next().unwrap_or("").to_string();
    (head, body)
}

fn pid_router(pid: u32) -> axum::Router {
    axum::Router::new()
        .route("/", axum::routing::get(move || async move { root_body(pid) }))
        .route("/pid", axum::routing::get(move || async move { pid_body(pid) }))
}

#[test]
fn get_root_and_pid_end_to_end() {
    let rt = tokio::runtime::Runtime::new().unwrap();
    rt.block_on(async {
        let a = BindAddr { ip: HostIp::V4([127, 0, 0, 1]), port: 36101 };
        let l = match build_listener(&a, Platform::Linux) {
            Ok(l) => l,
            Err(e) => panic!("{}", e.describe()),
        };
        let pid: u32 = 4242;
        tokio::spawn(async move {
            axum::serve(l.into_inner(), pid_router(pid)).await.unwrap();
        });
        let mut c1 = match connect(36101).await {
            Some(s) => s,
            None => {
                println!("skipping: no route to loopback here");
                return;
            },
        };
        let (head, body) = fetch(&mut c1, "/").await;
        assert!(head.starts_with("HTTP/1.1 200"), "{}", head);
        assert_eq!(body, "Hello from reuseport! (pid=4242)");
        let mut c2 = connect(36101).await.unwrap();
        let (head2, body2) = fetch(&mut c2, "/pid").await;
        assert!(head2.starts_with("HTTP/1.1 200"), "{}", head2);
        assert_eq!(body2, "4242");
        let mut c3 = connect(36101).await.unwrap();
        let (head3, body3) = fetch(&mut c3, "/pid").await;
        assert!(head3.starts_with("HTTP/1.1 200"), "{}", head3);
        assert_eq!(body3, body2);
    });
}

#[test]
fn requests_reach_both_listeners_on_shared_port() {
    let rt = tokio::runtime::Runtime::new().unwrap();
    rt.block_on(async {
        let a = BindAddr { ip: HostIp::V4([127, 0, 0, 1]), port: 36102 };
        let l1 = match build_listener(&a, Platform::Linux) {
            Ok(l) => l,
            Err(e) => panic!("first bind: {}", e.describe()),
        };
        let l2 = match build_listener(&a, Platform::Linux) {
            Ok(l) => l,
            Err(e) => panic!("second bind: {}", e.describe()),
        };
        tokio::spawn(async move {
            axum::serve(l1.into_inner(), pid_router(1)).await.unwrap();
        });
        tokio::spawn(async move {
            axum::serve(l2.into_inner(), pid_router(2)).await.unwrap();
        });
        let mut saw_one = false;
        let mut saw_two = false;
        let mut i: usize = 0;
        while i < 64 {
            let mut c = match connect(36102).await {
                Some(s) => s,
                None => {
                    println!("skipping: no route to loopback here");
                    return;
                },
            };
            let (head, body) = fetch(&mut c, "/pid").await;
            assert!(head.starts_with("HTTP/1.1 200"), "{}", head);
            match body.as_str() {
                "1" => saw_one = true,
                "2" => saw_two = true,
                other => panic!("unexpected body {}", other),
            }
            i += 1;
        }
        assert!(saw_one && saw_two, "replies came from one listener only");
    });
}
