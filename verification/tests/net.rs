use dynoxide::net::{
    bind_exclusive_next, bind_exclusive_start, bind_exclusive_to_next, bind_exclusive_to_start,
    BindAction, Domain, Platform, SearchAction, SocketCall, LISTEN_BACKLOG,
};

fn drive(
    platform: Platform,
    is_ipv6: bool,
    fails: Option<SocketCall>,
) -> (Vec<SocketCall>, Result<(), String>) {
    let mut made = Vec::new();
    let mut call = bind_exclusive_start(is_ipv6);
    loop {
        made.push(call);
        let outcome = if fails == Some(call) {
            Err("refused (os error 1)".to_string())
        } else {
            Ok(())
        };
        match bind_exclusive_next(platform, "127.0.0.1:8000", call, outcome) {
            BindAction::Call(next) => call = next,
            BindAction::Done => return (made, Ok(())),
            BindAction::Fail(message) => return (made, Err(message)),
        }
    }
}

#[test]
fn calls_on_each_platform() {
    assert_eq!(LISTEN_BACKLOG, 1024);
    assert_eq!(
        drive(Platform::Unix, false, None),
        (
            vec![
                SocketCall::Create(Domain::Ipv4),
                SocketCall::SetReuseAddress,
                SocketCall::SetNonblocking,
                SocketCall::Bind,
                SocketCall::Listen(1024),
            ],
            Ok(())
        )
    );
    assert_eq!(
        drive(Platform::Windows, true, None),
        (
            vec![
                SocketCall::Create(Domain::Ipv6),
                SocketCall::SetExclusiveAddrUse,
                SocketCall::SetNonblocking,
                SocketCall::Bind,
                SocketCall::Listen(1024),
            ],
            Ok(())
        )
    );
    assert_eq!(
        drive(Platform::Other, false, None).0,
        vec![
            SocketCall::Create(Domain::Ipv4),
            SocketCall::SetNonblocking,
            SocketCall::Bind,
            SocketCall::Listen(1024),
        ]
    );
}

#[test]
fn first_failure_is_reported() {
    for (platform, call, message) in [
        (
            Platform::Unix,
            SocketCall::Create(Domain::Ipv4),
            "failed to create socket: refused (os error 1)",
        ),
        (
            Platform::Unix,
            SocketCall::SetReuseAddress,
            "failed to set SO_REUSEADDR: refused (os error 1)",
        ),
        (
            Platform::Windows,
            SocketCall::SetExclusiveAddrUse,
            "failed to set SO_EXCLUSIVEADDRUSE: refused (os error 1)",
        ),
        (
            Platform::Unix,
            SocketCall::SetNonblocking,
            "failed to set nonblocking: refused (os error 1)",
        ),
        (
            Platform::Unix,
            SocketCall::Bind,
            "failed to bind 127.0.0.1:8000: refused (os error 1)",
        ),
        (
            Platform::Unix,
            SocketCall::Listen(1024),
            "failed to listen on 127.0.0.1:8000: refused (os error 1)",
        ),
    ] {
        let (made, res) = drive(platform, false, Some(call));
        assert_eq!(made.last(), Some(&call));
        assert_eq!(res, Err(message.to_string()));
    }
}

fn search(outcomes: &[Result<(), &str>]) -> Result<usize, String> {
    let mut action = bind_exclusive_to_start("localhost:8000", Ok(outcomes.len()));
    loop {
        match action {
            SearchAction::Try(i) => {
                let outcome = outcomes[i].map_err(|e| e.to_string());
                action = bind_exclusive_to_next(outcomes.len(), i, outcome);
            }
            SearchAction::Bound(i) => return Ok(i),
            SearchAction::Fail(message) => return Err(message),
        }
    }
}

#[test]
fn first_address_that_accepts_is_bound() {
    assert_eq!(search(&[Ok(()), Ok(())]), Ok(0));
    assert_eq!(search(&[Err("a"), Ok(()), Err("c"), Ok(())]), Ok(1));
    assert_eq!(search(&[Err("a"), Err("b")]), Err("b".to_string()));
    assert_eq!(
        search(&[]),
        Err("no addresses resolved for localhost:8000".to_string())
    );
    match bind_exclusive_to_start("nowhere", Err("invalid socket address".to_string())) {
        SearchAction::Fail(message) => {
            assert_eq!(message, "invalid address nowhere: invalid socket address")
        }
        other => panic!("{:?}", other),
    }
}
