//! The telnet negotiation state machine.
//!
//! Bytes read from the client are fed one at a time; each byte may complete a
//! command, whose reaction (a reply to send, an animation to start, a window
//! size to note) is handed back to the caller, which performs it.
pub mod option;
pub mod termtype;

use vstd::prelude::*;

verus! {

/// Interpret As Command (escape byte).
pub const IAC: u8 = 255;

/// Subnegotiation End.
pub const SE: u8 = 240;

/// Subnegotiation Begin.
pub const SB: u8 = 250;

/// A party wishes to enable a feature on its own end of the session.
pub const WILL: u8 = 251;

/// A party wishes to disable a feature on its own end of the session.
pub const WONT: u8 = 252;

/// A party wishes to enable a feature on the other end of the session.
pub const DO: u8 = 253;

/// A party wishes to disable a feature on the other end of the session.
pub const DONT: u8 = 254;

/// A protocol violation by the client; each one ends the session.
#[derive(Clone, Copy, Debug, PartialEq, Eq, Structural)]
pub enum ProtocolError {
    /// A byte other than SE or IAC followed an IAC inside a subnegotiation.
    UnexpectedSubNegotiationByte { byte: u8 },
    /// A subnegotiation carried no bytes at all.
    NoSubNegotiationCommand,
    /// A terminal-type subnegotiation carried no subcommand.
    NoTerminalTypeSubNegotiationCommand,
    /// A terminal-type subnegotiation carried a subcommand other than IS.
    UnexpectedTerminalTypeSubNegotiationCommand { byte: u8 },
    /// A window-size subnegotiation did not carry exactly five bytes.
    WrongWindowSizeBytes { byte_count: usize },
}

/// What the caller is to do after a byte has been fed.
#[derive(Debug)]
pub enum Action {
    /// Nothing: the command is not complete yet, or it needs no reaction.
    Nothing,
    /// Send these bytes to the client.
    Reply(Vec<u8>),
    /// The terminal is resolved: start the animation. Holds the reported
    /// terminal name, or `None` where the client declined to report one.
    StartAnimation { terminal_type: Option<Vec<u8>> },
    /// The client reported its window size.
    WindowSize { columns: u16, rows: u16 },
    /// A well-formed command about an option this server does not handle; no reply is due.
    Ignored { command: u8, option: u8 },
    /// A subnegotiation about an option this server does not handle.
    UnknownSubnegotiation { option: u8 },
}

/// The mathematical value of an [`Action`].
pub enum ActionView {
    Nothing,
    Reply(Seq<u8>),
    StartAnimation(Option<Seq<u8>>),
    WindowSize(u16, u16),
    Ignored(u8, u8),
    UnknownSubnegotiation(u8),
}

impl View for Action {
    type V = ActionView;

    open spec fn view(&self) -> ActionView {
        match self {
            Action::Nothing => ActionView::Nothing,
            Action::Reply(b) => ActionView::Reply(b@),
            Action::StartAnimation { terminal_type } => ActionView::StartAnimation(
                match terminal_type {
                    Some(t) => Some(t@),
                    None => None,
                },
            ),
            Action::WindowSize { columns, rows } => ActionView::WindowSize(*columns, *rows),
            Action::Ignored { command, option } => ActionView::Ignored(*command, *option),
            Action::UnknownSubnegotiation { option } => ActionView::UnknownSubnegotiation(*option),
        }
    }
}

/// The mathematical value of the outcome of feeding a byte.
pub open spec fn outcome_view(r: Result<Action, ProtocolError>) -> Result<ActionView, ProtocolError> {
    match r {
        Ok(a) => Ok(a@),
        Err(e) => Err(e),
    }
}

/// Whether a command byte takes an option byte (DO, DON'T, WILL, WON'T).
pub open spec fn is_option_command(command: u8) -> bool {
    command == DO || command == DONT || command == WILL || command == WONT
}

/// The query that asks the client to send its terminal type.
pub open spec fn terminal_type_query() -> Seq<u8> {
    seq![IAC, SB, option::TERMINAL_TYPE, termtype::SEND, IAC, SE]
}

/// The reaction to an option command:
/// every DO is refused with WON'T and every DON'T is noted only; WILL is
/// accepted for the window size, answered with a terminal-type query for the
/// terminal type and refused with DON'T otherwise; WON'T for the terminal type
/// starts the animation with the default terminal, any other WON'T is noted only.
pub open spec fn option_response(command: u8, opt: u8) -> ActionView {
    if command == DO {
        ActionView::Reply(seq![IAC, WONT, opt])
    } else if command == WILL {
        if opt == option::NEGO_WIN_SIZE {
            ActionView::Reply(seq![IAC, DO, opt])
        } else if opt == option::TERMINAL_TYPE {
            ActionView::Reply(terminal_type_query())
        } else {
            ActionView::Reply(seq![IAC, DONT, opt])
        }
    } else if command == WONT && opt == option::TERMINAL_TYPE {
        ActionView::StartAnimation(None)
    } else {
        ActionView::Ignored(command, opt)
    }
}

/// A big-endian 16-bit value.
pub open spec fn be16(hi: u8, lo: u8) -> u16 {
    (hi as int * 256 + lo as int) as u16
}

/// The outcome of a complete, unescaped subnegotiation payload, dispatched on its first byte.
pub open spec fn subnegotiation_outcome(payload: Seq<u8>) -> Result<ActionView, ProtocolError> {
    if payload.len() == 0 {
        Err(ProtocolError::NoSubNegotiationCommand)
    } else if payload[0] == option::TERMINAL_TYPE {
        if payload.len() == 1 {
            Err(ProtocolError::NoTerminalTypeSubNegotiationCommand)
        } else if payload[1] != termtype::IS {
            Err(ProtocolError::UnexpectedTerminalTypeSubNegotiationCommand { byte: payload[1] })
        } else {
            Ok(ActionView::StartAnimation(Some(payload.subrange(2, payload.len() as int))))
        }
    } else if payload[0] == option::NEGO_WIN_SIZE {
        if payload.len() != 5 {
            Err(ProtocolError::WrongWindowSizeBytes { byte_count: payload.len() as usize })
        } else {
            Ok(ActionView::WindowSize(be16(payload[1], payload[2]), be16(payload[3], payload[4])))
        }
    } else {
        Ok(ActionView::UnknownSubnegotiation(payload[0]))
    }
}

/// The offer sent when a connection opens: the server asks the client to negotiate its terminal type.
pub fn terminal_type_offer() -> (r: Vec<u8>)
    ensures
        r@ == seq![IAC, DO, option::TERMINAL_TYPE],
{
    let r = vec![IAC, DO, option::TERMINAL_TYPE];
    assert(r@ =~= seq![IAC, DO, option::TERMINAL_TYPE]);
    r
}

/// Decides the reaction to an option command (DO, DON'T, WILL or WON'T) and its option byte.
pub fn respond_to_option(command: u8, opt: u8) -> (r: Action)
    ensures
        r@ == option_response(command, opt),
{
    if command == DO {
        let b = vec![IAC, WONT, opt];
        assert(b@ =~= seq![IAC, WONT, opt]);
        Action::Reply(b)
    } else if command == WILL {
        if opt == option::NEGO_WIN_SIZE {
            let b = vec![IAC, DO, opt];
            assert(b@ =~= seq![IAC, DO, opt]);
            Action::Reply(b)
        } else if opt == option::TERMINAL_TYPE {
            let b = vec![IAC, SB, option::TERMINAL_TYPE, termtype::SEND, IAC, SE];
            assert(b@ =~= terminal_type_query());
            Action::Reply(b)
        } else {
            let b = vec![IAC, DONT, opt];
            assert(b@ =~= seq![IAC, DONT, opt]);
            Action::Reply(b)
        }
    } else if command == WONT && opt == option::TERMINAL_TYPE {
        Action::StartAnimation { terminal_type: None }
    } else {
        Action::Ignored { command, option: opt }
    }
}

/// Interprets a complete, unescaped subnegotiation payload.
pub fn interpret_subnegotiation(payload: &Vec<u8>) -> (r: Result<Action, ProtocolError>)
    ensures
        outcome_view(r) == subnegotiation_outcome(payload@),
{
    let len = payload.len();
    if len == 0 {
        return Err(ProtocolError::NoSubNegotiationCommand);
    }
    let opt = payload[0];
    if opt == option::TERMINAL_TYPE {
        if len == 1 {
            return Err(ProtocolError::NoTerminalTypeSubNegotiationCommand);
        }
        let sub = payload[1];
        if sub != termtype::IS {
            return Err(ProtocolError::UnexpectedTerminalTypeSubNegotiationCommand { byte: sub });
        }
        let mut name: Vec<u8> = Vec::new();
        let mut i: usize = 2;
        while i < len
            invariant
                len == payload@.len(),
                2 <= i <= len,
                name@ == payload@.subrange(2, i as int),
            decreases len - i,
        {
            name.push(payload[i]);
            assert(name@ =~= payload@.subrange(2, i + 1));
            i = i + 1;
        }
        Ok(Action::StartAnimation { terminal_type: Some(name) })
    } else if opt == option::NEGO_WIN_SIZE {
        if len != 5 {
            return Err(ProtocolError::WrongWindowSizeBytes { byte_count: len });
        }
        let columns = (payload[1] as u16) * 256 + payload[2] as u16;
        let rows = (payload[3] as u16) * 256 + payload[4] as u16;
        Ok(Action::WindowSize { columns, rows })
    } else {
        Ok(Action::UnknownSubnegotiation { option: opt })
    }
}

/// Where the negotiation stands between two bytes.
#[derive(Clone, Copy, Debug, PartialEq, Eq, Structural)]
pub enum Phase {
    /// Awaiting an IAC; other bytes are not commands and are passed over.
    Idle,
    /// An IAC was seen; awaiting the command byte.
    Command,
    /// An option command was seen; awaiting its option byte.
    OptionPending { command: u8 },
    /// Collecting a subnegotiation payload.
    Subnegotiation,
    /// An IAC was seen inside a subnegotiation payload.
    SubnegotiationEscape,
}

/// The mathematical state of a [`Negotiator`]: its phase and the payload
/// collected so far (empty outside a subnegotiation).
pub struct NegotiatorView {
    pub phase: Phase,
    pub payload: Seq<u8>,
}

/// The state outside any command.
pub open spec fn idle() -> NegotiatorView {
    NegotiatorView { phase: Phase::Idle, payload: Seq::empty() }
}

/// The state inside a subnegotiation that has collected `payload`.
pub open spec fn collecting(payload: Seq<u8>) -> NegotiatorView {
    NegotiatorView { phase: Phase::Subnegotiation, payload }
}

/// The next state, and the outcome, after one byte `b` in state `s`.
pub open spec fn step(s: NegotiatorView, b: u8) -> (NegotiatorView, Result<ActionView, ProtocolError>) {
    match s.phase {
        Phase::Idle => {
            if b == IAC {
                (NegotiatorView { phase: Phase::Command, payload: Seq::empty() }, Ok(ActionView::Nothing))
            } else {
                (idle(), Ok(ActionView::Nothing))
            }
        },
        Phase::Command => {
            if is_option_command(b) {
                (NegotiatorView { phase: Phase::OptionPending { command: b }, payload: Seq::empty() }, Ok(ActionView::Nothing))
            } else if b == SB {
                (collecting(Seq::empty()), Ok(ActionView::Nothing))
            } else {
                (idle(), Ok(ActionView::Nothing))
            }
        },
        Phase::OptionPending { command } => (idle(), Ok(option_response(command, b))),
        Phase::Subnegotiation => {
            if b == IAC {
                (NegotiatorView { phase: Phase::SubnegotiationEscape, payload: s.payload }, Ok(ActionView::Nothing))
            } else {
                (collecting(s.payload.push(b)), Ok(ActionView::Nothing))
            }
        },
        Phase::SubnegotiationEscape => {
            if b == SE {
                (idle(), subnegotiation_outcome(s.payload))
            } else if b == IAC {
                (collecting(s.payload.push(IAC)), Ok(ActionView::Nothing))
            } else {
                (idle(), Err(ProtocolError::UnexpectedSubNegotiationByte { byte: b }))
            }
        },
    }
}

/// The final state, and the outcome of each byte in turn, after feeding `bytes` in state `s`.
pub open spec fn run(s: NegotiatorView, bytes: Seq<u8>) -> (NegotiatorView, Seq<Result<ActionView, ProtocolError>>)
    decreases bytes.len(),
{
    if bytes.len() == 0 {
        (s, Seq::empty())
    } else {
        let (next, out) = step(s, bytes[0]);
        let (last, outs) = run(next, bytes.drop_first());
        (last, seq![out] + outs)
    }
}

/// A payload as it travels on the wire: every IAC byte doubled.
pub open spec fn escaped(payload: Seq<u8>) -> Seq<u8>
    decreases payload.len(),
{
    if payload.len() == 0 {
        Seq::empty()
    } else {
        (if payload[0] == IAC { seq![IAC, IAC] } else { seq![payload[0]] }) + escaped(payload.drop_first())
    }
}

/// The negotiation state of one connection.
pub struct Negotiator {
    phase: Phase,
    payload: Vec<u8>,
}

impl View for Negotiator {
    type V = NegotiatorView;

    closed spec fn view(&self) -> NegotiatorView {
        NegotiatorView { phase: self.phase, payload: self.payload@ }
    }
}

impl Negotiator {
    /// A negotiator outside any command.
    pub fn new() -> (r: Negotiator)
        ensures
            r@ == idle(),
    {
        let r = Negotiator { phase: Phase::Idle, payload: Vec::new() };
        assert(r@.payload =~= Seq::<u8>::empty());
        r
    }

    /// The current phase.
    pub fn phase(&self) -> (r: Phase)
        ensures
            r == self@.phase,
    {
        self.phase
    }

    fn restart(&mut self)
        ensures
            final(self)@ == idle(),
    {
        self.phase = Phase::Idle;
        self.payload = Vec::new();
        assert(self@.payload =~= Seq::<u8>::empty());
    }

    /// Feeds one byte received from the client and returns what is to be done
    /// about it. An error is a protocol violation that ends the session.
    pub fn feed(&mut self, b: u8) -> (r: Result<Action, ProtocolError>)
        ensures
            (final(self)@, outcome_view(r)) == step(old(self)@, b),
    {
        match self.phase {
            Phase::Idle => {
                if b == IAC {
                    self.restart();
                    self.phase = Phase::Command;
                } else {
                    self.restart();
                }
                Ok(Action::Nothing)
            },
            Phase::Command => {
                self.restart();
                if b == DO || b == DONT || b == WILL || b == WONT {
                    self.phase = Phase::OptionPending { command: b };
                } else if b == SB {
                    self.phase = Phase::Subnegotiation;
                }
                Ok(Action::Nothing)
            },
            Phase::OptionPending { command } => {
                self.restart();
                Ok(respond_to_option(command, b))
            },
            Phase::Subnegotiation => {
                if b == IAC {
                    self.phase = Phase::SubnegotiationEscape;
                } else {
                    self.payload.push(b);
                }
                Ok(Action::Nothing)
            },
            Phase::SubnegotiationEscape => {
                if b == SE {
                    let r = interpret_subnegotiation(&self.payload);
                    self.restart();
                    r
                } else if b == IAC {
                    self.payload.push(IAC);
                    self.phase = Phase::Subnegotiation;
                    Ok(Action::Nothing)
                } else {
                    self.restart();
                    Err(ProtocolError::UnexpectedSubNegotiationByte { byte: b })
                }
            },
        }
    }
}

/// `n` outcomes that call for nothing.
pub open spec fn quiet(n: nat) -> Seq<Result<ActionView, ProtocolError>> {
    Seq::new(n, |i: int| Ok(ActionView::Nothing))
}

/// Inside a subnegotiation, a payload sent with its IAC bytes doubled and then
/// terminated by IAC SE is collected byte for byte: an escaped IAC becomes one
/// literal IAC and ends nothing, no byte before the terminator calls for any
/// reaction, and the terminator yields the outcome of the whole unescaped payload.
pub proof fn lemma_escaped_payload_is_collected(collected: Seq<u8>, rest: Seq<u8>)
    ensures
        run(collecting(collected), escaped(rest) + seq![IAC, SE]) == (
            idle(),
            quiet(escaped(rest).len() + 1) + seq![subnegotiation_outcome(collected + rest)],
        ),
    decreases rest.len(),
{
    let bytes = escaped(rest) + seq![IAC, SE];
    if rest.len() == 0 {
        assert(escaped(rest) =~= Seq::<u8>::empty());
        assert(bytes =~= seq![IAC, SE]);
        assert(bytes.drop_first() =~= seq![SE]);
        assert(bytes.drop_first().drop_first() =~= Seq::<u8>::empty());
        assert(collected + rest =~= collected);
        let esc = NegotiatorView { phase: Phase::SubnegotiationEscape, payload: collected };
        assert(seq![SE].drop_first() =~= Seq::<u8>::empty());
        assert(step(esc, SE) == (idle(), subnegotiation_outcome(collected)));
        assert(run(idle(), Seq::<u8>::empty()) == (idle(), Seq::<Result<ActionView, ProtocolError>>::empty()));
        assert(run(esc, seq![SE]).0 == idle());
        assert(run(esc, seq![SE]).1 =~= seq![subnegotiation_outcome(collected)]);
        assert(run(collecting(collected), bytes).1 =~= quiet(1) + seq![subnegotiation_outcome(collected)]);
    } else {
        let x = rest[0];
        let tail = rest.drop_first();
        let after = escaped(tail) + seq![IAC, SE];
        lemma_escaped_payload_is_collected(collected.push(x), tail);
        assert(collected.push(x) + tail =~= collected + rest);
        let k = escaped(tail).len();
        let outcome = subnegotiation_outcome(collected + rest);
        if x == IAC {
            assert(bytes =~= seq![IAC, IAC] + after);
            assert(bytes.drop_first() =~= seq![IAC] + after);
            assert(bytes.drop_first().drop_first() =~= after);
            assert(escaped(rest).len() == k + 2);
            let esc = NegotiatorView { phase: Phase::SubnegotiationEscape, payload: collected };
            assert(step(collecting(collected), IAC).0 == esc);
            assert(step(esc, IAC).0 == collecting(collected.push(x)));
            let inner = run(collecting(collected.push(x)), after);
            assert(run(esc, bytes.drop_first()) == (inner.0, seq![Ok(ActionView::Nothing)] + inner.1));
            assert(run(collecting(collected), bytes).1 =~= quiet(k + 3) + seq![outcome]);
        } else {
            assert(bytes =~= seq![x] + after);
            assert(bytes.drop_first() =~= after);
            assert(escaped(rest).len() == k + 1);
            assert(run(collecting(collected), bytes).1 =~= quiet(k + 2) + seq![outcome]);
        }
    }
}

/// From the idle state, a whole subnegotiation (IAC SB, the escaped payload,
/// IAC SE) calls for nothing until its last byte, which yields the outcome of
/// the unescaped payload and leaves the negotiator idle again.
pub proof fn lemma_subnegotiation_from_idle(payload: Seq<u8>)
    ensures
        run(idle(), seq![IAC, SB] + escaped(payload) + seq![IAC, SE]) == (
            idle(),
            quiet(escaped(payload).len() + 3) + seq![subnegotiation_outcome(payload)],
        ),
{
    let body = escaped(payload) + seq![IAC, SE];
    let bytes = seq![IAC, SB] + escaped(payload) + seq![IAC, SE];
    assert(bytes =~= seq![IAC, SB] + body);
    assert(bytes.drop_first() =~= seq![SB] + body);
    assert(bytes.drop_first().drop_first() =~= body);
    lemma_escaped_payload_is_collected(Seq::empty(), payload);
    assert(Seq::<u8>::empty() + payload =~= payload);
    let cmd = NegotiatorView { phase: Phase::Command, payload: Seq::empty() };
    assert(step(idle(), IAC).0 == cmd);
    assert(step(cmd, SB).0 == collecting(Seq::empty()));
    let inner = run(collecting(Seq::empty()), body);
    assert(run(cmd, bytes.drop_first()) == (inner.0, seq![Ok(ActionView::Nothing)] + inner.1));
    assert(run(idle(), bytes).1 =~= quiet(escaped(payload).len() + 3) + seq![subnegotiation_outcome(payload)]);
}

/// From the idle state, a whole option command (IAC, the command, the option)
/// calls for nothing until the option byte, which yields the command's response
/// and leaves the negotiator idle again.
pub proof fn lemma_option_command_from_idle(command: u8, opt: u8)
    requires
        is_option_command(command),
    ensures
        run(idle(), seq![IAC, command, opt]) == (
            idle(),
            quiet(2) + seq![Ok(option_response(command, opt))],
        ),
{
    let bytes = seq![IAC, command, opt];
    assert(bytes.drop_first() =~= seq![command, opt]);
    assert(bytes.drop_first().drop_first() =~= seq![opt]);
    assert(seq![opt].drop_first() =~= Seq::<u8>::empty());
    let cmd = NegotiatorView { phase: Phase::Command, payload: Seq::empty() };
    let pending = NegotiatorView { phase: Phase::OptionPending { command }, payload: Seq::empty() };
    assert(step(idle(), IAC).0 == cmd);
    assert(step(cmd, command).0 == pending);
    assert(run(idle(), Seq::<u8>::empty()) == (idle(), Seq::<Result<ActionView, ProtocolError>>::empty()));
    assert(run(pending, seq![opt]).1 =~= seq![Ok(option_response(command, opt))]);
    assert(run(cmd, seq![command, opt]).1 =~= seq![Ok(ActionView::Nothing), Ok(option_response(command, opt))]);
    assert(run(idle(), bytes).1 =~= quiet(2) + seq![Ok(option_response(command, opt))]);
}

} // verus!
