//! Shared TCP listener setup for the HTTP and MCP servers: which socket calls
//! are made, in which order, and what is reported when one fails. The calls
//! themselves are the caller's.
//!
//! Unix: `SO_REUSEADDR` lets a server rebind past `TIME_WAIT` sockets from a
//! previous clean shutdown. It does not let two live listeners share a port
//! (that is `SO_REUSEPORT`), so port-conflict detection still works.
//!
//! Windows: a plain bind already rebinds past `TIME_WAIT`, but another process
//! of the same user can take the port with `SO_REUSEADDR`.
//! `SO_EXCLUSIVEADDRUSE` rules that out.

use vstd::prelude::*;

verus! {

/// How many connections may wait to be accepted.
pub const LISTEN_BACKLOG: i32 = 1024;

/// The family of systems that the server runs on.
#[derive(Clone, Copy, Debug, PartialEq, Eq, Structural)]
pub enum Platform {
    Unix,
    Windows,
    Other,
}

/// The address family of a socket.
#[derive(Clone, Copy, Debug, PartialEq, Eq, Structural)]
pub enum Domain {
    Ipv4,
    Ipv6,
}

/// A socket call on the way to a listener.
#[derive(Clone, Copy, Debug, PartialEq, Eq, Structural)]
pub enum SocketCall {
    /// Create a TCP stream socket.
    Create(Domain),
    /// Set `SO_REUSEADDR`.
    SetReuseAddress,
    /// Set `SO_EXCLUSIVEADDRUSE`.
    SetExclusiveAddrUse,
    /// Make the socket nonblocking.
    SetNonblocking,
    /// Bind the socket to the address.
    Bind,
    /// Listen, with a backlog.
    Listen(i32),
}

/// What comes next on the way to a listener.
#[derive(Debug)]
pub enum BindAction {
    /// Make this call.
    Call(SocketCall),
    /// The socket listens.
    Done,
    /// Give up, with this message.
    Fail(String),
}

/// What a [`BindAction`] says.
pub enum BindStep {
    Call(SocketCall),
    Done,
    Fail(Seq<char>),
}

impl View for BindAction {
    type V = BindStep;

    open spec fn view(&self) -> BindStep {
        match self {
            BindAction::Call(call) => BindStep::Call(*call),
            BindAction::Done => BindStep::Done,
            BindAction::Fail(message) => BindStep::Fail(message@),
        }
    }
}

/// The step that comes next in the search for an address to bind.
#[derive(Debug)]
pub enum SearchAction {
    /// Bind the candidate with this number.
    Try(usize),
    /// The candidate with this number listens.
    Bound(usize),
    /// Give up, with this message.
    Fail(String),
}

/// What a [`SearchAction`] says.
pub enum SearchStep {
    Try(int),
    Bound(int),
    Fail(Seq<char>),
}

impl View for SearchAction {
    type V = SearchStep;

    open spec fn view(&self) -> SearchStep {
        match self {
            SearchAction::Try(candidate) => SearchStep::Try(*candidate as int),
            SearchAction::Bound(candidate) => SearchStep::Bound(*candidate as int),
            SearchAction::Fail(message) => SearchStep::Fail(message@),
        }
    }
}

/// An outcome with the text of its reason.
pub open spec fn reason<T>(outcome: Result<T, String>) -> Result<T, Seq<char>> {
    match outcome {
        Ok(value) => Ok(value),
        Err(cause) => Err(cause@),
    }
}

/// The address family of a socket for an address.
pub open spec fn domain(is_ipv6: bool) -> Domain {
    if is_ipv6 {
        Domain::Ipv6
    } else {
        Domain::Ipv4
    }
}

/// The calls that make a listener, in order.
pub open spec fn bind_calls(platform: Platform, is_ipv6: bool) -> Seq<SocketCall> {
    let options = match platform {
        Platform::Unix => seq![SocketCall::SetReuseAddress],
        Platform::Windows => seq![SocketCall::SetExclusiveAddrUse],
        Platform::Other => seq![],
    };
    seq![SocketCall::Create(domain(is_ipv6))] + options + seq![
        SocketCall::SetNonblocking,
        SocketCall::Bind,
        SocketCall::Listen(LISTEN_BACKLOG),
    ]
}

/// The message for a socket call that failed for the reason `cause`.
pub open spec fn call_error(call: SocketCall, addr: Seq<char>, cause: Seq<char>) -> Seq<char> {
    match call {
        SocketCall::Create(_) => "failed to create socket: "@ + cause,
        SocketCall::SetReuseAddress => "failed to set SO_REUSEADDR: "@ + cause,
        SocketCall::SetExclusiveAddrUse => "failed to set SO_EXCLUSIVEADDRUSE: "@ + cause,
        SocketCall::SetNonblocking => "failed to set nonblocking: "@ + cause,
        SocketCall::Bind => "failed to bind "@ + addr + ": "@ + cause,
        SocketCall::Listen(_) => "failed to listen on "@ + addr + ": "@ + cause,
    }
}

/// The call that follows one that succeeded, if any does.
pub open spec fn call_after(platform: Platform, call: SocketCall) -> Option<SocketCall> {
    match call {
        SocketCall::Create(_) => Some(
            match platform {
                Platform::Unix => SocketCall::SetReuseAddress,
                Platform::Windows => SocketCall::SetExclusiveAddrUse,
                Platform::Other => SocketCall::SetNonblocking,
            },
        ),
        SocketCall::SetReuseAddress | SocketCall::SetExclusiveAddrUse => Some(
            SocketCall::SetNonblocking,
        ),
        SocketCall::SetNonblocking => Some(SocketCall::Bind),
        SocketCall::Bind => Some(SocketCall::Listen(LISTEN_BACKLOG)),
        SocketCall::Listen(_) => None,
    }
}

/// What comes after a socket call.
pub open spec fn bind_step(
    platform: Platform,
    addr: Seq<char>,
    call: SocketCall,
    outcome: Result<(), Seq<char>>,
) -> BindStep {
    match outcome {
        Ok(_) => match call_after(platform, call) {
            Some(next) => BindStep::Call(next),
            None => BindStep::Done,
        },
        Err(cause) => BindStep::Fail(call_error(call, addr, cause)),
    }
}

/// The first step of a search over the addresses that `addr` resolved to.
pub open spec fn search_start(addr: Seq<char>, resolved: Result<int, Seq<char>>) -> SearchStep {
    match resolved {
        Err(cause) => SearchStep::Fail("invalid address "@ + addr + ": "@ + cause),
        Ok(count) => if count == 0 {
            SearchStep::Fail("no addresses resolved for "@ + addr)
        } else {
            SearchStep::Try(0)
        },
    }
}

/// The step after candidate number `candidate` of `count` was tried.
pub open spec fn search_step(
    count: int,
    candidate: int,
    outcome: Result<(), Seq<char>>,
) -> SearchStep {
    match outcome {
        Ok(_) => SearchStep::Bound(candidate),
        Err(message) => if candidate + 1 < count {
            SearchStep::Try(candidate + 1)
        } else {
            SearchStep::Fail(message)
        },
    }
}

/// The first call on the way to a listener.
pub fn bind_exclusive_start(is_ipv6: bool) -> (res: SocketCall)
    ensures
        res == SocketCall::Create(domain(is_ipv6)),
{
    if is_ipv6 {
        SocketCall::Create(Domain::Ipv6)
    } else {
        SocketCall::Create(Domain::Ipv4)
    }
}

/// What comes after a socket call for the address `addr`: `outcome` says how it
/// went, with the reason where it failed.
pub fn bind_exclusive_next(
    platform: Platform,
    addr: &str,
    call: SocketCall,
    outcome: Result<(), String>,
) -> (res: BindAction)
    ensures
        res@ == bind_step(platform, addr@, call, reason(outcome)),
{
    match outcome {
        Ok(_) => match call {
            SocketCall::Create(_) => BindAction::Call(
                match platform {
                    Platform::Unix => SocketCall::SetReuseAddress,
                    Platform::Windows => SocketCall::SetExclusiveAddrUse,
                    Platform::Other => SocketCall::SetNonblocking,
                },
            ),
            SocketCall::SetReuseAddress | SocketCall::SetExclusiveAddrUse => BindAction::Call(
                SocketCall::SetNonblocking,
            ),
            SocketCall::SetNonblocking => BindAction::Call(SocketCall::Bind),
            SocketCall::Bind => BindAction::Call(SocketCall::Listen(LISTEN_BACKLOG)),
            SocketCall::Listen(_) => BindAction::Done,
        },
        Err(cause) => {
            let prefix = match call {
                SocketCall::Create(_) => "failed to create socket: ".to_string(),
                SocketCall::SetReuseAddress => "failed to set SO_REUSEADDR: ".to_string(),
                SocketCall::SetExclusiveAddrUse => "failed to set SO_EXCLUSIVEADDRUSE: ".to_string(),
                SocketCall::SetNonblocking => "failed to set nonblocking: ".to_string(),
                SocketCall::Bind => "failed to bind ".to_string().concat(addr).concat(": "),
                SocketCall::Listen(_) => "failed to listen on ".to_string().concat(addr).concat(": "),
            };
            BindAction::Fail(prefix.concat(cause.as_str()))
        },
    }
}

/// The first step of the search for an address of `addr` that accepts a
/// listener: `resolved` is the number of candidates, or why there are none.
pub fn bind_exclusive_to_start(addr: &str, resolved: Result<usize, String>) -> (res: SearchAction)
    ensures
        res@ == search_start(
            addr@,
            match resolved {
                Ok(count) => Ok(count as int),
                Err(cause) => Err(cause@),
            },
        ),
{
    match resolved {
        Err(cause) => SearchAction::Fail(
            "invalid address ".to_string().concat(addr).concat(": ").concat(cause.as_str()),
        ),
        Ok(count) => if count == 0 {
            SearchAction::Fail("no addresses resolved for ".to_string().concat(addr))
        } else {
            SearchAction::Try(0)
        },
    }
}

/// The step after candidate number `candidate` of `count` was tried: `outcome`
/// says whether it listens, with the message where it does not.
pub fn bind_exclusive_to_next(
    count: usize,
    candidate: usize,
    outcome: Result<(), String>,
) -> (res: SearchAction)
    ensures
        res@ == search_step(count as int, candidate as int, reason(outcome)),
{
    match outcome {
        Ok(_) => SearchAction::Bound(candidate),
        Err(message) => if candidate < count && candidate + 1 < count {
            SearchAction::Try(candidate + 1)
        } else {
            SearchAction::Fail(message)
        },
    }
}

/// How many calls can still follow.
pub open spec fn calls_left(call: SocketCall) -> nat {
    match call {
        SocketCall::Create(_) => 4,
        SocketCall::SetReuseAddress | SocketCall::SetExclusiveAddrUse => 3,
        SocketCall::SetNonblocking => 2,
        SocketCall::Bind => 1,
        SocketCall::Listen(_) => 0,
    }
}

/// What the steps from `call` on come to, where `os` says how each call goes.
pub open spec fn bind_run(
    platform: Platform,
    addr: Seq<char>,
    call: SocketCall,
    os: spec_fn(SocketCall) -> Result<(), Seq<char>>,
) -> Result<(), Seq<char>>
    decreases calls_left(call),
{
    match bind_step(platform, addr, call, os(call)) {
        BindStep::Call(next) => bind_run(platform, addr, next, os),
        BindStep::Done => Ok(()),
        BindStep::Fail(message) => Err(message),
    }
}

/// What a search from `candidate` on comes to, where `os` says how the bind of
/// each candidate goes: the number of the one that listens, or a message.
pub open spec fn search_run(
    count: int,
    candidate: int,
    os: spec_fn(int) -> Result<(), Seq<char>>,
) -> Result<int, Seq<char>>
    decreases count - candidate,
{
    match search_step(count, candidate, os(candidate)) {
        SearchStep::Try(next) => search_run(count, next, os),
        SearchStep::Bound(found) => Ok(found),
        SearchStep::Fail(message) => Err(message),
    }
}

/// What the whole search over the addresses of `addr` comes to.
pub open spec fn search(
    addr: Seq<char>,
    resolved: Result<int, Seq<char>>,
    os: spec_fn(int) -> Result<(), Seq<char>>,
) -> Result<int, Seq<char>> {
    match search_start(addr, resolved) {
        SearchStep::Try(candidate) => search_run(resolved->Ok_0, candidate, os),
        SearchStep::Bound(candidate) => Ok(candidate),
        SearchStep::Fail(message) => Err(message),
    }
}

/// The calls are made in the order of [`bind_calls`], each only after the one
/// before it succeeded, and nothing follows the last.
pub proof fn law_calls_in_order(platform: Platform, is_ipv6: bool)
    ensures
        bind_calls(platform, is_ipv6)[0] == SocketCall::Create(domain(is_ipv6)),
        forall|i: int|
            0 <= i < bind_calls(platform, is_ipv6).len() - 1 ==> call_after(
                platform,
                #[trigger] bind_calls(platform, is_ipv6)[i],
            ) == Some(bind_calls(platform, is_ipv6)[i + 1]),
        call_after(platform, bind_calls(platform, is_ipv6).last()) is None,
{
    let calls = bind_calls(platform, is_ipv6);
    assert forall|i: int| 0 <= i < calls.len() - 1 implies call_after(
        platform,
        #[trigger] calls[i],
    ) == Some(calls[i + 1]) by {
        if platform is Other {
            assert(i == 0 || i == 1 || i == 2);
        } else {
            assert(i == 0 || i == 1 || i == 2 || i == 3);
        }
    }
}

/// The steps come to a listener exactly if every call succeeds, and otherwise
/// to the message of the first call that fails.
pub proof fn law_first_failure_is_reported(
    platform: Platform,
    is_ipv6: bool,
    addr: Seq<char>,
    os: spec_fn(SocketCall) -> Result<(), Seq<char>>,
)
    ensures
        ({
            let calls = bind_calls(platform, is_ipv6);
            let res = bind_run(platform, addr, SocketCall::Create(domain(is_ipv6)), os);
            &&& res is Ok <==> forall|i: int| 0 <= i < calls.len() ==> os(#[trigger] calls[i]) is Ok
            &&& forall|k: int|
                0 <= k < calls.len() && os(#[trigger] calls[k]) is Err && (forall|i: int|
                    0 <= i < k ==> os(#[trigger] calls[i]) is Ok) ==> res == Err::<(), Seq<char>>(
                    call_error(calls[k], addr, os(calls[k])->Err_0),
                )
        }),
{
    lemma_bind_run(platform, is_ipv6, addr, os, 0);
}

/// [`law_first_failure_is_reported`] for the steps from the call at position
/// `from` on.
proof fn lemma_bind_run(
    platform: Platform,
    is_ipv6: bool,
    addr: Seq<char>,
    os: spec_fn(SocketCall) -> Result<(), Seq<char>>,
    from: int,
)
    requires
        0 <= from < bind_calls(platform, is_ipv6).len(),
    ensures
        ({
            let calls = bind_calls(platform, is_ipv6);
            let res = bind_run(platform, addr, calls[from], os);
            &&& res is Ok <==> forall|i: int|
                from <= i < calls.len() ==> os(#[trigger] calls[i]) is Ok
            &&& forall|k: int|
                from <= k < calls.len() && os(#[trigger] calls[k]) is Err && (forall|i: int|
                    from <= i < k ==> os(#[trigger] calls[i]) is Ok) ==> res == Err::<
                    (),
                    Seq<char>,
                >(call_error(calls[k], addr, os(calls[k])->Err_0))
        }),
    decreases bind_calls(platform, is_ipv6).len() - from,
{
    let calls = bind_calls(platform, is_ipv6);
    law_calls_in_order(platform, is_ipv6);
    if from + 1 < calls.len() {
        lemma_bind_run(platform, is_ipv6, addr, os, from + 1);
        assert(call_after(platform, calls[from]) == Some(calls[from + 1]));
    } else {
        assert(calls[from] == calls.last());
    }
}

/// On Unix the address is made reusable, and on Windows exclusive, before the
/// socket is bound; neither system makes the other's call.
pub proof fn law_port_option_before_bind(platform: Platform, is_ipv6: bool)
    ensures
        ({
            let calls = bind_calls(platform, is_ipv6);
            &&& calls.contains(SocketCall::SetReuseAddress) <==> platform is Unix
            &&& calls.contains(SocketCall::SetExclusiveAddrUse) <==> platform is Windows
            &&& forall|i: int, j: int|
                0 <= i < calls.len() && 0 <= j < calls.len() && (#[trigger] calls[i]
                    is SetReuseAddress || calls[i] is SetExclusiveAddrUse) && #[trigger] calls[j]
                    is Bind ==> i < j
        }),
{
    let calls = bind_calls(platform, is_ipv6);
    match platform {
        Platform::Unix => assert(calls[1] == SocketCall::SetReuseAddress),
        Platform::Windows => assert(calls[1] == SocketCall::SetExclusiveAddrUse),
        Platform::Other => {},
    }
}

/// A search binds the first address that accepts a listener. Where none does,
/// it reports the message of the last one, and where there is none, that.
pub proof fn law_first_success_is_bound(
    addr: Seq<char>,
    resolved: Result<int, Seq<char>>,
    os: spec_fn(int) -> Result<(), Seq<char>>,
)
    requires
        resolved is Ok ==> resolved->Ok_0 >= 0,
    ensures
        match (resolved, search(addr, resolved, os)) {
            (Ok(count), Ok(found)) => {
                &&& 0 <= found < count
                &&& os(found) is Ok
                &&& forall|i: int| 0 <= i < found ==> #[trigger] os(i) is Err
            },
            (Ok(count), Err(message)) => {
                &&& forall|i: int| 0 <= i < count ==> #[trigger] os(i) is Err
                &&& if count == 0 {
                    message == "no addresses resolved for "@ + addr
                } else {
                    os(count - 1) == Err::<(), Seq<char>>(message)
                }
            },
            (Err(cause), res) => res == Err::<int, Seq<char>>(
                "invalid address "@ + addr + ": "@ + cause,
            ),
        },
{
    if let Ok(count) = resolved {
        if count > 0 {
            lemma_search_run(count, 0, os);
        }
    }
}

/// [`law_first_success_is_bound`] for the candidates from `candidate` on.
proof fn lemma_search_run(
    count: int,
    candidate: int,
    os: spec_fn(int) -> Result<(), Seq<char>>,
)
    requires
        0 <= candidate < count,
    ensures
        match search_run(count, candidate, os) {
            Ok(found) => {
                &&& candidate <= found < count
                &&& os(found) is Ok
                &&& forall|i: int| candidate <= i < found ==> #[trigger] os(i) is Err
            },
            Err(message) => {
                &&& forall|i: int| candidate <= i < count ==> #[trigger] os(i) is Err
                &&& os(count - 1) == Err::<(), Seq<char>>(message)
            },
        },
    decreases count - candidate,
{
    if os(candidate) is Err && candidate + 1 < count {
        lemma_search_run(count, candidate + 1, os);
    }
}

/// The first call creates a socket of the address's own family.
pub proof fn law_socket_is_of_the_address_family(is_ipv6: bool, res: SocketCall)
    requires
        call_ensures(bind_exclusive_start, (is_ipv6,), res),
    ensures
        is_ipv6 ==> res == SocketCall::Create(Domain::Ipv6),
        !is_ipv6 ==> res == SocketCall::Create(Domain::Ipv4),
{
}

/// A call that succeeded is followed by the next: the option of the platform,
/// if it has one, comes after the socket is created; the socket is nonblocking
/// before it is bound, and bound before it listens.
pub proof fn law_success_goes_on(platform: Platform, addr: &str, call: SocketCall, res: BindAction)
    requires
        call_ensures(bind_exclusive_next, (platform, addr, call, Ok::<(), String>(())), res),
    ensures
        call is Create && platform is Unix ==> res == BindAction::Call(SocketCall::SetReuseAddress),
        call is Create && platform is Windows ==> res == BindAction::Call(
            SocketCall::SetExclusiveAddrUse,
        ),
        call is Create && platform is Other ==> res == BindAction::Call(SocketCall::SetNonblocking),
        call is SetReuseAddress || call is SetExclusiveAddrUse ==> res == BindAction::Call(
            SocketCall::SetNonblocking,
        ),
        call is SetNonblocking ==> res == BindAction::Call(SocketCall::Bind),
        call is Bind ==> res == BindAction::Call(SocketCall::Listen(1024)),
        call is Listen ==> res is Done,
{
}

/// A call that failed ends the attempt with a message that says which call it
/// was, for which address where that matters, and why.
pub proof fn law_failure_is_explained(
    platform: Platform,
    addr: &str,
    call: SocketCall,
    cause: String,
    res: BindAction,
)
    requires
        call_ensures(bind_exclusive_next, (platform, addr, call, Err::<(), String>(cause)), res),
    ensures
        res matches BindAction::Fail(message) && {
            &&& call is Create ==> message@ == "failed to create socket: "@ + cause@
            &&& call is SetReuseAddress ==> message@ == "failed to set SO_REUSEADDR: "@ + cause@
            &&& call is SetExclusiveAddrUse ==> message@ == "failed to set SO_EXCLUSIVEADDRUSE: "@
                + cause@
            &&& call is SetNonblocking ==> message@ == "failed to set nonblocking: "@ + cause@
            &&& call is Bind ==> message@ == "failed to bind "@ + addr@ + ": "@ + cause@
            &&& call is Listen ==> message@ == "failed to listen on "@ + addr@ + ": "@ + cause@
        },
{
}

/// A search begins with the first address, if there is one, and otherwise says
/// that there is none, or why the address could not be resolved.
pub proof fn law_search_begins_with_the_first(
    addr: &str,
    resolved: Result<usize, String>,
    res: SearchAction,
)
    requires
        call_ensures(bind_exclusive_to_start, (addr, resolved), res),
    ensures
        match resolved {
            Ok(count) => {
                &&& count > 0 ==> res == SearchAction::Try(0)
                &&& count == 0 ==> (res matches SearchAction::Fail(message) && message@
                    == "no addresses resolved for "@ + addr@)
            },
            Err(cause) => res matches SearchAction::Fail(message) && message@ == "invalid address "@
                + addr@ + ": "@ + cause@,
        },
{
}

/// A search ends at an address that listens, goes on to the next after one that
/// does not, and reports why the last one does not.
pub proof fn law_search_goes_on(
    count: usize,
    candidate: usize,
    outcome: Result<(), String>,
    res: SearchAction,
)
    requires
        call_ensures(bind_exclusive_to_next, (count, candidate, outcome), res),
    ensures
        match outcome {
            Ok(_) => res == SearchAction::Bound(candidate),
            Err(cause) => {
                &&& candidate + 1 < count ==> (res matches SearchAction::Try(next) && next
                    == candidate + 1)
                &&& candidate + 1 >= count ==> (res matches SearchAction::Fail(message) && message@
                    == cause@)
            },
        },
{
}

} // verus!
