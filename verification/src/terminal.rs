//! The remote terminal session: what is sent to the remote shell and what is
//! written locally, in reply to the remote's messages, to timer ticks and to
//! keys typed locally.
use vstd::prelude::*;
use vstd::slice::slice_to_vec;
use vstd::string::StringSliceAdditionalSpecFns;
use vstd::utf8::encode_utf8;

use crate::keys::{key_bytes, KeyCode, KeyModifiers, MOD_CONTROL};

verus! {

/// The id of the one terminal that a session opens.
pub const TERMINAL_ID: i32 = 1;

/// Seconds between two keepalive messages while the terminal runs.
pub const KEEPALIVE_INTERVAL_SECS: u64 = 15;

/// Milliseconds between two input ticks (keyboard poll and window size check).
pub const INPUT_TICK_MS: u64 = 20;

/// A request to the remote terminal service.
#[derive(Debug)]
pub enum TerminalRequest {
    /// Open a terminal of the given size.
    Open { terminal_id: i32, rows: u32, cols: u32 },
    /// Input for the terminal (never compressed).
    Data { terminal_id: i32, data: Vec<u8> },
    /// The local window changed size.
    Resize { terminal_id: i32, rows: u32, cols: u32 },
    /// Close the terminal.
    Close { terminal_id: i32 },
    /// An empty message that keeps the connection alive.
    Keepalive,
}

/// The mathematical value of a [`TerminalRequest`].
pub enum RequestView {
    Open { terminal_id: i32, rows: u32, cols: u32 },
    Data { terminal_id: i32, data: Seq<u8> },
    Resize { terminal_id: i32, rows: u32, cols: u32 },
    Close { terminal_id: i32 },
    Keepalive,
}

impl View for TerminalRequest {
    type V = RequestView;

    open spec fn view(&self) -> RequestView {
        match self {
            TerminalRequest::Open { terminal_id, rows, cols } => RequestView::Open {
                terminal_id: *terminal_id,
                rows: *rows,
                cols: *cols,
            },
            TerminalRequest::Data { terminal_id, data } => RequestView::Data {
                terminal_id: *terminal_id,
                data: data@,
            },
            TerminalRequest::Resize { terminal_id, rows, cols } => RequestView::Resize {
                terminal_id: *terminal_id,
                rows: *rows,
                cols: *cols,
            },
            TerminalRequest::Close { terminal_id } => RequestView::Close {
                terminal_id: *terminal_id,
            },
            TerminalRequest::Keepalive => RequestView::Keepalive,
        }
    }
}

/// A terminal reply of the remote device.
#[derive(Debug)]
pub enum TerminalReply {
    Opened { success: bool, message: String, pid: u32 },
    Data { data: Vec<u8>, compressed: bool },
    Closed { exit_code: i32 },
    Error { message: String },
    Other,
}

/// What the connection delivered while the terminal runs.
#[derive(Debug)]
pub enum Incoming {
    /// The stream failed.
    StreamError,
    /// The peer closed the connection.
    Closed,
    /// Bytes arrived that are not a message.
    Unparsable,
    /// A terminal reply.
    Terminal(TerminalReply),
    /// Any other message.
    Other,
}

/// Why a terminal session failed.
#[derive(Debug)]
pub enum TerminalError {
    /// The remote could not open the terminal; its message.
    OpenFailed(String),
    /// The remote reported a terminal error; its message.
    Remote(String),
}

/// What to do with something the connection delivered.
#[derive(Debug)]
pub enum Reaction {
    /// Nothing; keep running.
    Continue,
    /// Write the remote's output locally (decompressing it first when
    /// `compressed`), and keep running.
    Write { data: Vec<u8>, compressed: bool },
    /// The session is over.
    Finish,
    /// The session failed.
    Fail(TerminalError),
}

/// What to do with a key typed locally.
#[derive(Debug)]
pub enum KeyReaction {
    /// Nothing is sent.
    Ignore,
    /// Send this request.
    Send(TerminalRequest),
    /// End the session, first sending the close request when there is one.
    Close(Option<TerminalRequest>),
}

/// The state of the terminal session.
#[derive(Debug)]
pub struct TerminalSession {
    /// The remote runs Windows (its shell needs `chcp` rather than `export`).
    pub windows_remote: bool,
    /// The remote reported the terminal open.
    pub opened: bool,
    /// The hint with the UTF-8 locale fix was written locally.
    pub hint_shown: bool,
    /// The window size last reported to the remote.
    pub last_cols: u16,
    pub last_rows: u16,
}

/// The ASCII lower-case form of byte `b` when it is an upper-case letter, else `b` itself.
pub open spec fn lower_byte(b: u8) -> u8 {
    if 0x41 <= b <= 0x5a {
        (b + 32) as u8
    } else {
        b
    }
}

/// The bytes of the platform name that marks a Windows remote.
pub open spec fn windows_name() -> Seq<u8> {
    seq![0x57u8, 0x69, 0x6e, 0x64, 0x6f, 0x77, 0x73]
}

/// Two byte strings are equal up to ASCII case.
pub open spec fn eq_ignore_ascii_case(a: Seq<u8>, b: Seq<u8>) -> bool {
    a.len() == b.len() && forall|i: int| 0 <= i < a.len() ==> lower_byte(a[i]) == lower_byte(b[i])
}

/// The platform name reported by the remote is "Windows", in any ASCII case.
pub open spec fn is_windows(platform: Seq<u8>) -> bool {
    eq_ignore_ascii_case(platform, windows_name())
}

/// The hint written locally once the terminal is open: the command that
/// switches the remote shell to UTF-8, for the user to run when non-ASCII text
/// looks garbled.
pub open spec fn locale_hint(windows: bool) -> Seq<u8> {
    if windows {
        encode_utf8(
            "\r\n[rustshell] If non-ASCII text looks garbled, run: chcp 65001\r\n"@,
        )
    } else {
        encode_utf8(
            "\r\n[rustshell] If non-ASCII text looks garbled, run: export LANG=en_US.UTF-8 LC_ALL=en_US.UTF-8\r\n"@,
        )
    }
}

/// Whether the platform name is "Windows", ignoring ASCII case.
pub fn is_windows_platform(platform: &str) -> (r: bool)
    ensures
        r == is_windows(platform.spec_bytes()),
{
    let bytes = platform.as_bytes();
    let target: [u8; 7] = [0x57, 0x69, 0x6e, 0x64, 0x6f, 0x77, 0x73];
    assert(target@ =~= windows_name());
    if bytes.len() != 7 {
        return false;
    }
    let mut i: usize = 0;
    while i < 7
        invariant
            bytes@.len() == 7,
            bytes@ == platform.spec_bytes(),
            target@ == windows_name(),
            0 <= i <= 7,
            forall|j: int| 0 <= j < i ==> lower_byte(bytes@[j]) == lower_byte(windows_name()[j]),
        decreases 7 - i,
    {
        let a = bytes[i];
        let b = target[i];
        let la: u8 = if 0x41 <= a && a <= 0x5a {
            a + 32
        } else {
            a
        };
        let lb: u8 = if 0x41 <= b && b <= 0x5a {
            b + 32
        } else {
            b
        };
        if la != lb {
            assert(la == lower_byte(bytes@[i as int]) && lb == lower_byte(windows_name()[i as int]));
            return false;
        }
        i = i + 1;
    }
    true
}

/// The locale hint for the remote's platform.
fn locale_hint_bytes(windows: bool) -> (r: Vec<u8>)
    ensures
        r@ == locale_hint(windows),
{
    if windows {
        slice_to_vec("\r\n[rustshell] If non-ASCII text looks garbled, run: chcp 65001\r\n".as_bytes())
    } else {
        slice_to_vec(
            "\r\n[rustshell] If non-ASCII text looks garbled, run: export LANG=en_US.UTF-8 LC_ALL=en_US.UTF-8\r\n".as_bytes(),
        )
    }
}

/// The state after an open reply of the remote (`success` tells whether the
/// terminal opened).
pub open spec fn open_reply_state(s: TerminalSession, success: bool) -> TerminalSession {
    TerminalSession { opened: success, hint_shown: s.hint_shown || success, ..s }
}

/// What an open reply writes locally: the locale hint, the first time the
/// terminal opens; nothing otherwise.
pub open spec fn open_reply_writes(s: TerminalSession, success: bool) -> Option<Seq<u8>> {
    if success && !s.hint_shown {
        Some(locale_hint(s.windows_remote))
    } else {
        None
    }
}

/// The state after an input tick that saw window size `size` (when it could
/// be read).
pub open spec fn tick_state(s: TerminalSession, size: Option<(u16, u16)>) -> TerminalSession {
    match size {
        Some((c, r)) => if (c != s.last_cols || r != s.last_rows) && s.opened {
            TerminalSession { last_cols: c, last_rows: r, ..s }
        } else {
            s
        },
        None => s,
    }
}

/// The request an input tick sends: a resize, when the terminal is open and
/// the size read differs from the one last reported.
pub open spec fn tick_request(s: TerminalSession, size: Option<(u16, u16)>) -> Option<RequestView> {
    match size {
        Some((c, r)) => if (c != s.last_cols || r != s.last_rows) && s.opened {
            Some(RequestView::Resize { terminal_id: TERMINAL_ID, rows: r as u32, cols: c as u32 })
        } else {
            None
        },
        None => None,
    }
}

/// The bytes of a typed key end the session: Ctrl+C (3) or Ctrl+D (4).
pub open spec fn is_close_key(data: Seq<u8>) -> bool {
    data =~= seq![3u8] || data =~= seq![4u8]
}

impl TerminalSession {
    /// Starts a session with a remote running `remote_platform`, in a local
    /// window of `cols` by `rows`; returns it with the request that opens the
    /// terminal.
    pub fn open(remote_platform: &str, cols: u16, rows: u16) -> (r: (TerminalSession, TerminalRequest))
        ensures
            r.0 == (TerminalSession {
                windows_remote: is_windows(remote_platform.spec_bytes()),
                opened: false,
                hint_shown: false,
                last_cols: cols,
                last_rows: rows,
            }),
            r.1@ == (RequestView::Open { terminal_id: TERMINAL_ID, rows: rows as u32, cols: cols as u32 }),
    {
        let s = TerminalSession {
            windows_remote: is_windows_platform(remote_platform),
            opened: false,
            hint_shown: false,
            last_cols: cols,
            last_rows: rows,
        };
        (s, TerminalRequest::Open { terminal_id: TERMINAL_ID, rows: rows as u32, cols: cols as u32 })
    }

    /// Handles what the connection delivered.
    pub fn on_message(&mut self, incoming: Incoming) -> (r: Reaction)
        ensures
            match incoming {
                Incoming::StreamError | Incoming::Closed => r is Finish && *final(self) == *old(self),
                Incoming::Unparsable | Incoming::Other => r is Continue && *final(self) == *old(self),
                Incoming::Terminal(reply) => match reply {
                    TerminalReply::Opened { success, message, .. } => {
                        &&& *final(self) == open_reply_state(*old(self), success)
                        &&& if !success {
                            r matches Reaction::Fail(TerminalError::OpenFailed(m)) && m@ == message@
                        } else {
                            match open_reply_writes(*old(self), success) {
                                Some(hint) => r matches Reaction::Write { data, compressed }
                                    && data@ == hint && !compressed,
                                None => r is Continue,
                            }
                        }
                    },
                    TerminalReply::Data { data, compressed } => {
                        &&& *final(self) == *old(self)
                        &&& r matches Reaction::Write { data: d, compressed: c }
                        &&& d@ == data@ && c == compressed
                    },
                    TerminalReply::Closed { .. } => r is Finish && *final(self) == *old(self),
                    TerminalReply::Error { message } => {
                        &&& *final(self) == *old(self)
                        &&& r matches Reaction::Fail(TerminalError::Remote(m)) && m@ == message@
                    },
                    TerminalReply::Other => r is Continue && *final(self) == *old(self),
                },
            },
    {
        match incoming {
            Incoming::StreamError => Reaction::Finish,
            Incoming::Closed => Reaction::Finish,
            Incoming::Unparsable => Reaction::Continue,
            Incoming::Other => Reaction::Continue,
            Incoming::Terminal(reply) => match reply {
                TerminalReply::Opened { success, message, .. } => {
                    self.opened = success;
                    if !success {
                        Reaction::Fail(TerminalError::OpenFailed(message))
                    } else if !self.hint_shown {
                        self.hint_shown = true;
                        Reaction::Write { data: locale_hint_bytes(self.windows_remote), compressed: false }
                    } else {
                        Reaction::Continue
                    }
                },
                TerminalReply::Data { data, compressed } => Reaction::Write { data, compressed },
                TerminalReply::Closed { .. } => Reaction::Finish,
                TerminalReply::Error { message } => Reaction::Fail(TerminalError::Remote(message)),
                TerminalReply::Other => Reaction::Continue,
            },
        }
    }

    /// Handles an input tick, given the local window size when it could be
    /// read: reports a changed window size to an open terminal.
    pub fn on_input_tick(&mut self, size: Option<(u16, u16)>) -> (r: Option<TerminalRequest>)
        ensures
            *final(self) == tick_state(*old(self), size),
            match r {
                Some(q) => tick_request(*old(self), size) == Some(q@),
                None => tick_request(*old(self), size) is None,
            },
    {
        if let Some((nc, nr)) = size {
            if (nc != self.last_cols || nr != self.last_rows) && self.opened {
                self.last_cols = nc;
                self.last_rows = nr;
                return Some(
                    TerminalRequest::Resize { terminal_id: TERMINAL_ID, rows: nr as u32, cols: nc as u32 },
                );
            }
        }
        None
    }

    /// The message to send when the keepalive timer fires.
    pub fn on_keepalive(&self) -> (r: TerminalRequest)
        ensures
            r@ == RequestView::Keepalive,
    {
        TerminalRequest::Keepalive
    }

    /// Handles the bytes of a key typed locally: Ctrl+C and Ctrl+D end the
    /// session (closing the terminal when it is open); other keys are sent to
    /// an open terminal and dropped before it opens.
    pub fn on_key(&self, data: Vec<u8>) -> (r: KeyReaction)
        ensures
            data@.len() == 0 ==> r is Ignore,
            data@.len() != 0 && is_close_key(data@) ==> (r matches KeyReaction::Close(c) && if self.opened {
                c matches Some(q) && q@ == (RequestView::Close { terminal_id: TERMINAL_ID })
            } else {
                c is None
            }),
            data@.len() != 0 && !is_close_key(data@) ==> if self.opened {
                r matches KeyReaction::Send(q) && q@ == (RequestView::Data {
                    terminal_id: TERMINAL_ID,
                    data: data@,
                })
            } else {
                r is Ignore
            },
    {
        if data.len() == 0 {
            return KeyReaction::Ignore;
        }
        if data.len() == 1 && (data[0] == 3 || data[0] == 4) {
            assert(is_close_key(data@));
            if self.opened {
                return KeyReaction::Close(Some(TerminalRequest::Close { terminal_id: TERMINAL_ID }));
            }
            return KeyReaction::Close(None);
        }
        assert(!is_close_key(data@)) by {
            if data@ =~= seq![3u8] || data@ =~= seq![4u8] {
                assert(data@.len() == 1);
                assert(data@[0] == 3 || data@[0] == 4);
            }
        }
        if self.opened {
            KeyReaction::Send(TerminalRequest::Data { terminal_id: TERMINAL_ID, data })
        } else {
            KeyReaction::Ignore
        }
    }
}

// ---------------------------------------------------------------------------
// Laws of the terminal session
// ---------------------------------------------------------------------------

/// The locale hint is written at most once in a session: the first open reply
/// writes it, and once it has been written no later open reply writes it
/// again, whatever ticks come in between (ticks never clear the flag).
pub proof fn lemma_locale_hint_written_once(s: TerminalSession, size: Option<(u16, u16)>)
    requires
        !s.hint_shown,
    ensures
        open_reply_writes(s, true) == Some(locale_hint(s.windows_remote)),
        open_reply_state(s, true).hint_shown,
        tick_state(open_reply_state(s, true), size).hint_shown,
        open_reply_writes(tick_state(open_reply_state(s, true), size), true) is None,
        open_reply_writes(open_reply_state(s, true), true) is None,
{
}

/// Before the remote reports the terminal open, a tick sends nothing and
/// changes nothing, and typed keys (other than the closing ones) are dropped.
pub proof fn lemma_nothing_sent_before_open(s: TerminalSession, size: Option<(u16, u16)>)
    requires
        !s.opened,
    ensures
        tick_request(s, size) is None,
        tick_state(s, size) == s,
{
}

/// A resize is reported exactly when the terminal is open and the window size
/// read differs from the one last reported, and afterwards the reported size
/// is the one read: a second tick with the same size reports nothing.
pub proof fn lemma_resize_reported_once(s: TerminalSession, c: u16, r: u16)
    requires
        s.opened,
        c != s.last_cols || r != s.last_rows,
    ensures
        tick_request(s, Some((c, r))) == Some(
            RequestView::Resize { terminal_id: TERMINAL_ID, rows: r as u32, cols: c as u32 },
        ),
        tick_request(tick_state(s, Some((c, r))), Some((c, r))) is None,
{
}

/// Ctrl+C and Ctrl+D (in either case) end the session: the keyboard
/// encoding turns them into exactly the bytes that close the terminal.
pub proof fn lemma_ctrl_c_and_ctrl_d_close(c: char, modifiers: KeyModifiers)
    requires
        modifiers.has(MOD_CONTROL),
        c == 'c' || c == 'd' || c == 'C' || c == 'D',
    ensures
        key_bytes(KeyCode::Char(c), modifiers).len() != 0,
        is_close_key(key_bytes(KeyCode::Char(c), modifiers)),
{
    assert(key_bytes(KeyCode::Char(c), modifiers) =~= seq![3u8] || key_bytes(KeyCode::Char(c), modifiers)
        =~= seq![4u8]);
}

} // verus!
