use vstd::prelude::*;

verus! {

/// A request received from a client: one of the four protocol tokens, or the
/// fallback for any other line.
#[derive(Clone, Copy, Debug, PartialEq, Eq, Structural)]
pub enum Command {
    Status,
    Start,
    Toggle,
    Quit,
    Unrecognized,
}

/// A reply written back to the client, one line per connection.
#[derive(Clone, Copy, Debug, PartialEq, Eq, Structural)]
pub enum Response {
    Running,
    Stopped,
    Error,
}

/// What to do with one accepted connection after the read attempt: ignore it
/// (the client disconnected before sending a line) or handle a command.
#[derive(Clone, Copy, Debug, PartialEq, Eq, Structural)]
pub enum ReadStep {
    Skip,
    Handle(Command),
}

/// ASCII whitespace for line trimming: space, tab, carriage return, line feed.
pub open spec fn is_ws(b: u8) -> bool {
    b == 32 || b == 9 || b == 13 || b == 10
}

/// Executable mirror of `is_ws`.
pub fn byte_is_ws(b: u8) -> (r: bool)
    ensures
        r == is_ws(b),
{
    b == 32 || b == 9 || b == 13 || b == 10
}

/// The bytes of each command's request token. The fallback has no token of
/// its own, so it maps to the empty sequence.
pub open spec fn token_of(c: Command) -> Seq<u8> {
    match c {
        Command::Status => seq![
            's' as u8,
            't' as u8,
            'a' as u8,
            't' as u8,
            'u' as u8,
            's' as u8,
        ],
        Command::Start => seq!['s' as u8, 't' as u8, 'a' as u8, 'r' as u8, 't' as u8],
        Command::Toggle => seq![
            't' as u8,
            'o' as u8,
            'g' as u8,
            'g' as u8,
            'l' as u8,
            'e' as u8,
        ],
        Command::Quit => seq!['q' as u8, 'u' as u8, 'i' as u8, 't' as u8],
        Command::Unrecognized => Seq::empty(),
    }
}

/// The bytes of each reply line: the token followed by a line feed.
pub open spec fn response_bytes(r: Response) -> Seq<u8> {
    match r {
        Response::Running => seq![
            'r' as u8,
            'u' as u8,
            'n' as u8,
            'n' as u8,
            'i' as u8,
            'n' as u8,
            'g' as u8,
            10u8,
        ],
        Response::Stopped => seq![
            's' as u8,
            't' as u8,
            'o' as u8,
            'p' as u8,
            'p' as u8,
            'e' as u8,
            'd' as u8,
            10u8,
        ],
        Response::Error => seq!['e' as u8, 'r' as u8, 'r' as u8, 'o' as u8, 'r' as u8, 10u8],
    }
}

pub open spec fn trim_front(s: Seq<u8>) -> Seq<u8>
    decreases s.len(),
{
    if s.len() > 0 && is_ws(s[0]) {
        trim_front(s.drop_first())
    } else {
        s
    }
}

pub open spec fn trim_back(s: Seq<u8>) -> Seq<u8>
    decreases s.len(),
{
    if s.len() > 0 && is_ws(s.last()) {
        trim_back(s.drop_last())
    } else {
        s
    }
}

/// A request line with leading and trailing whitespace removed.
pub open spec fn trimmed(s: Seq<u8>) -> Seq<u8> {
    trim_back(trim_front(s))
}

/// The command a request line denotes: its trimmed text matched, case
/// sensitively, against the four tokens.
pub open spec fn command_of(line: Seq<u8>) -> Command {
    let t = trimmed(line);
    if t == token_of(Command::Status) {
        Command::Status
    } else if t == token_of(Command::Start) {
        Command::Start
    } else if t == token_of(Command::Toggle) {
        Command::Toggle
    } else if t == token_of(Command::Quit) {
        Command::Quit
    } else {
        Command::Unrecognized
    }
}

/// How one connection proceeds: a read that ended before any byte arrived is
/// ignored; anything else is parsed as a command.
pub open spec fn read_outcome(n_read: nat, line: Seq<u8>) -> ReadStep {
    if n_read == 0 {
        ReadStep::Skip
    } else {
        ReadStep::Handle(command_of(line))
    }
}

/// The bounds of the trimmed text inside `line`: the subrange from `i` to `j`
/// is exactly `trimmed(line@)`.
pub fn trim_bounds(line: &Vec<u8>) -> (bounds: (usize, usize))
    ensures
        bounds.0 <= bounds.1 <= line@.len(),
        line@.subrange(bounds.0 as int, bounds.1 as int) == trimmed(line@),
{
    let n = line.len();
    proof {
        assert(line@.skip(0) =~= line@);
    }
    let mut i: usize = 0;
    while i < n && byte_is_ws(line[i])
        invariant
            i <= n,
            n == line@.len(),
            trim_front(line@) == trim_front(line@.skip(i as int)),
        decreases n - i,
    {
        proof {
            assert(line@.skip(i as int).drop_first() =~= line@.skip(i as int + 1));
        }
        i = i + 1;
    }
    proof {
        assert(trim_front(line@) == line@.skip(i as int));
        assert(line@.subrange(i as int, n as int) =~= line@.skip(i as int));
    }
    let mut j: usize = n;
    while j > i && byte_is_ws(line[j - 1])
        invariant
            i <= j <= n,
            n == line@.len(),
            trim_front(line@) == line@.skip(i as int),
            trimmed(line@) == trim_back(line@.subrange(i as int, j as int)),
        decreases j,
    {
        proof {
            assert(line@.subrange(i as int, j as int).drop_last() =~= line@.subrange(
                i as int,
                j as int - 1,
            ));
        }
        j = j - 1;
    }
    proof {
        assert(trimmed(line@) == line@.subrange(i as int, j as int));
    }
    (i, j)
}

/// Whether the bytes of `line` from `start` to `end` are exactly `tok`.
fn region_eq(line: &Vec<u8>, start: usize, end: usize, tok: &Vec<u8>) -> (r: bool)
    requires
        start <= end <= line@.len(),
    ensures
        r == (line@.subrange(start as int, end as int) == tok@),
{
    if end - start != tok.len() {
        return false;
    }
    let mut k: usize = 0;
    while k < tok.len()
        invariant
            start <= end <= line@.len(),
            end - start == tok@.len(),
            k <= tok@.len(),
            forall|m: int| 0 <= m < k ==> line@[start + m] == tok@[m],
        decreases tok@.len() - k,
    {
        if line[start + k] != tok[k] {
            proof {
                assert(line@.subrange(start as int, end as int)[k as int] == line@[start + k]);
            }
            return false;
        }
        k = k + 1;
    }
    proof {
        assert(line@.subrange(start as int, end as int) =~= tok@);
    }
    true
}

/// The request token of a command, as bytes ready to compare against a line.
pub fn token_bytes(c: Command) -> (v: Vec<u8>)
    ensures
        v@ == token_of(c),
{
    let mut v: Vec<u8> = Vec::new();
    match c {
        Command::Status => {
            v.push('s' as u8);
            v.push('t' as u8);
            v.push('a' as u8);
            v.push('t' as u8);
            v.push('u' as u8);
            v.push('s' as u8);
        },
        Command::Start => {
            v.push('s' as u8);
            v.push('t' as u8);
            v.push('a' as u8);
            v.push('r' as u8);
            v.push('t' as u8);
        },
        Command::Toggle => {
            v.push('t' as u8);
            v.push('o' as u8);
            v.push('g' as u8);
            v.push('g' as u8);
            v.push('l' as u8);
            v.push('e' as u8);
        },
        Command::Quit => {
            v.push('q' as u8);
            v.push('u' as u8);
            v.push('i' as u8);
            v.push('t' as u8);
        },
        Command::Unrecognized => {},
    }
    proof {
        assert(v@ =~= token_of(c));
    }
    v
}

/// Parse one request line into the command it denotes.
pub fn parse_command(line: &Vec<u8>) -> (c: Command)
    ensures
        c == command_of(line@),
{
    let (i, j) = trim_bounds(line);
    let status_tok = token_bytes(Command::Status);
    let start_tok = token_bytes(Command::Start);
    let toggle_tok = token_bytes(Command::Toggle);
    let quit_tok = token_bytes(Command::Quit);
    if region_eq(line, i, j, &status_tok) {
        Command::Status
    } else if region_eq(line, i, j, &start_tok) {
        Command::Start
    } else if region_eq(line, i, j, &toggle_tok) {
        Command::Toggle
    } else if region_eq(line, i, j, &quit_tok) {
        Command::Quit
    } else {
        Command::Unrecognized
    }
}

/// Decide what to do with one connection from how its read attempt ended:
/// `n_read` is the number of bytes received before the stream ended, `line`
/// holds those bytes. A client that closed without sending anything is
/// ignored; it is not a protocol error.
pub fn classify_read(n_read: usize, line: &Vec<u8>) -> (s: ReadStep)
    ensures
        s == read_outcome(n_read as nat, line@),
{
    if n_read == 0 {
        ReadStep::Skip
    } else {
        ReadStep::Handle(parse_command(line))
    }
}

/// The reply line owed to the client: the response token and a line feed.
pub fn response_line(r: Response) -> (v: Vec<u8>)
    ensures
        v@ == response_bytes(r),
{
    let mut v: Vec<u8> = Vec::new();
    match r {
        Response::Running => {
            v.push('r' as u8);
            v.push('u' as u8);
            v.push('n' as u8);
            v.push('n' as u8);
            v.push('i' as u8);
            v.push('n' as u8);
            v.push('g' as u8);
            v.push(10u8);
        },
        Response::Stopped => {
            v.push('s' as u8);
            v.push('t' as u8);
            v.push('o' as u8);
            v.push('p' as u8);
            v.push('p' as u8);
            v.push('e' as u8);
            v.push('d' as u8);
            v.push(10u8);
        },
        Response::Error => {
            v.push('e' as u8);
            v.push('r' as u8);
            v.push('r' as u8);
            v.push('o' as u8);
            v.push('r' as u8);
            v.push(10u8);
        },
    }
    proof {
        assert(v@ =~= response_bytes(r));
    }
    v
}

} // verus!
