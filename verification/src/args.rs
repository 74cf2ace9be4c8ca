//! The command line that the supervisor gives a group process, and how the group
//! process reads it back.

use vstd::prelude::*;
use vstd::string::*;
use crate::decimal::{
    all_digits, decimal, decimal_string, digit_value, digits_value, lemma_decimal_digits, lemma_parse_decimal, parse_unsigned,
    parse_unsigned_text, unsigned_digits,
};

verus! {

/// The text of each argument.
pub open spec fn arg_views(args: Seq<String>) -> Seq<Seq<char>> {
    args.map_values(|s: String| s@)
}

/// The argument that follows the first occurrence of `key`, where that occurrence
/// is not the last argument; `None` when there is no such occurrence.
pub open spec fn arg_value_of(args: Seq<Seq<char>>, key: Seq<char>) -> Option<Seq<char>>
    decreases args.len(),
{
    if args.len() < 2 {
        None
    } else if args[0] == key {
        Some(args[1])
    } else {
        arg_value_of(args.drop_first(), key)
    }
}

/// Looks up the value given for a command-line flag: the argument right after the
/// first argument equal to `key` (an occurrence as the very last argument has no
/// value and does not count).
pub fn arg_value(args: &[String], key: &str) -> (value: Option<String>)
    ensures
        match value {
            Some(v) => arg_value_of(arg_views(args@), key@) == Some(v@),
            None => arg_value_of(arg_views(args@), key@) is None,
        },
{
    let key_text = String::from_str(key);
    let n = args.len();
    let ghost all = arg_views(args@);
    let last: usize = if n == 0 {
        0
    } else {
        n - 1
    };
    let mut i: usize = 0;
    assert(all.skip(0) =~= all);
    while i < last
        invariant
            last == if n == 0 { 0 } else { n - 1 },
            n == args@.len(),
            all == arg_views(args@),
            i <= n,
            key_text@ == key@,
            arg_value_of(all, key@) == arg_value_of(all.skip(i as int), key@),
        decreases n - i,
    {
        let ghost rest = all.skip(i as int);
        assert(rest[0] == args@[i as int]@);
        assert(rest[1] == args@[i + 1]@);
        if args[i] == key_text {
            return Some(args[i + 1].clone());
        }
        assert(rest.drop_first() =~= all.skip(i + 1));
        i = i + 1;
    }
    assert(all.skip(i as int).len() < 2);
    None
}

/// Why a group process cannot start from its command line.
#[derive(Clone, Copy, PartialEq, Eq, Debug)]
pub enum ArgError {
    MissingGroup,
    MissingDb,
    MissingPort,
    InvalidPort,
    InvalidIdleSeconds,
}

impl ArgError {
    pub open spec fn spec_message(self) -> Seq<char> {
        match self {
            ArgError::MissingGroup => "missing --group"@,
            ArgError::MissingDb => "missing --db"@,
            ArgError::MissingPort => "missing --port"@,
            ArgError::InvalidPort => "invalid --port"@,
            ArgError::InvalidIdleSeconds => "invalid --idle-seconds"@,
        }
    }

    /// The message the group process stops with.
    pub fn message(&self) -> (m: String)
        ensures
            m@ == self.spec_message(),
    {
        match self {
            ArgError::MissingGroup => String::from_str("missing --group"),
            ArgError::MissingDb => String::from_str("missing --db"),
            ArgError::MissingPort => String::from_str("missing --port"),
            ArgError::InvalidPort => String::from_str("invalid --port"),
            ArgError::InvalidIdleSeconds => String::from_str("invalid --idle-seconds"),
        }
    }
}

/// What a group process is told to serve.
pub struct GroupConfig {
    pub group_id: String,
    pub db_path: String,
    pub port: u16,
    pub idle_secs: u64,
}

pub ghost struct GroupConfigView {
    pub group_id: Seq<char>,
    pub db_path: Seq<char>,
    pub port: u16,
    pub idle_secs: u64,
}

impl View for GroupConfig {
    type V = GroupConfigView;

    open spec fn view(&self) -> GroupConfigView {
        GroupConfigView {
            group_id: self.group_id@,
            db_path: self.db_path@,
            port: self.port,
            idle_secs: self.idle_secs,
        }
    }
}

/// How long a group process waits without activity before it exits, when its
/// command line does not say.
pub open spec fn default_idle_text() -> Seq<char> {
    "300"@
}

/// What a group process makes of its command line: `--group`, `--db` and `--port`
/// are required, `--port` must be a number that fits in 16 bits, and
/// `--idle-seconds` defaults to 300 and must fit in 64 bits.
pub open spec fn group_args_outcome(args: Seq<Seq<char>>) -> Result<GroupConfigView, ArgError> {
    match arg_value_of(args, "--group"@) {
        None => Err(ArgError::MissingGroup),
        Some(group_id) => match arg_value_of(args, "--db"@) {
            None => Err(ArgError::MissingDb),
            Some(db_path) => match arg_value_of(args, "--port"@) {
                None => Err(ArgError::MissingPort),
                Some(port_text) => match parse_unsigned(port_text, u16::MAX as nat) {
                    None => Err(ArgError::InvalidPort),
                    Some(port) => {
                        let idle_text = match arg_value_of(args, "--idle-seconds"@) {
                            Some(t) => t,
                            None => default_idle_text(),
                        };
                        match parse_unsigned(idle_text, u64::MAX as nat) {
                            None => Err(ArgError::InvalidIdleSeconds),
                            Some(idle) => Ok(
                                GroupConfigView {
                                    group_id,
                                    db_path,
                                    port: port as u16,
                                    idle_secs: idle as u64,
                                },
                            ),
                        }
                    },
                },
            },
        },
    }
}

/// Reads a group process's command line (the program name first).
pub fn parse_group_args(args: &[String]) -> (r: Result<GroupConfig, ArgError>)
    ensures
        match r {
            Ok(c) => group_args_outcome(arg_views(args@)) == Ok::<GroupConfigView, ArgError>(c@),
            Err(e) => group_args_outcome(arg_views(args@)) == Err::<GroupConfigView, ArgError>(e),
        },
{
    let group_id = match arg_value(args, "--group") {
        Some(v) => v,
        None => return Err(ArgError::MissingGroup),
    };
    let db_path = match arg_value(args, "--db") {
        Some(v) => v,
        None => return Err(ArgError::MissingDb),
    };
    let port_text = match arg_value(args, "--port") {
        Some(v) => v,
        None => return Err(ArgError::MissingPort),
    };
    let port = match parse_unsigned_text(port_text.as_str(), 65535) {
        Some(p) => p as u16,
        None => return Err(ArgError::InvalidPort),
    };
    let idle_text = match arg_value(args, "--idle-seconds") {
        Some(v) => v,
        None => String::from_str("300"),
    };
    let idle_secs = match parse_unsigned_text(idle_text.as_str(), u64::MAX) {
        Some(v) => v,
        None => return Err(ArgError::InvalidIdleSeconds),
    };
    Ok(GroupConfig { group_id, db_path, port, idle_secs })
}

/// The arguments, after the program name, with which the supervisor starts a group
/// process.
pub open spec fn launch_args(group_id: Seq<char>, db_path: Seq<char>, port: u16, idle_secs: u64) -> Seq<Seq<char>> {
    seq![
        "--group"@,
        group_id,
        "--db"@,
        db_path,
        "--port"@,
        decimal(port as nat),
        "--idle-seconds"@,
        decimal(idle_secs as nat),
    ]
}

/// Builds the arguments with which the supervisor starts a group process.
pub fn group_server_args(group_id: &str, db_path: &str, port: u16, idle_secs: u64) -> (args: Vec<String>)
    ensures
        arg_views(args@) == launch_args(group_id@, db_path@, port, idle_secs),
{
    let mut args: Vec<String> = Vec::new();
    args.push(String::from_str("--group"));
    args.push(String::from_str(group_id));
    args.push(String::from_str("--db"));
    args.push(String::from_str(db_path));
    args.push(String::from_str("--port"));
    args.push(decimal_string(port as u64));
    args.push(String::from_str("--idle-seconds"));
    args.push(decimal_string(idle_secs));
    assert(arg_views(args@) =~= launch_args(group_id@, db_path@, port, idle_secs));
    args
}

pub open spec fn is_launch_flag(s: Seq<char>) -> bool {
    s == "--group"@ || s == "--db"@ || s == "--port"@ || s == "--idle-seconds"@
}

/// A group process started by the supervisor reads back exactly the group, database
/// path, port and idle timeout that the supervisor put on its command line, as long
/// as neither the program name nor an earlier value reads as a flag that follows it.
pub proof fn lemma_launch_args_round_trip(
    program: Seq<char>,
    group_id: Seq<char>,
    db_path: Seq<char>,
    port: u16,
    idle_secs: u64,
)
    requires
        !is_launch_flag(program),
        group_id != "--db"@,
        group_id != "--port"@,
        group_id != "--idle-seconds"@,
        db_path != "--port"@,
        db_path != "--idle-seconds"@,
    ensures
        group_args_outcome(seq![program] + launch_args(group_id, db_path, port, idle_secs))
            == Ok::<GroupConfigView, ArgError>(
            GroupConfigView { group_id, db_path, port, idle_secs },
        ),
{
    reveal_strlit("--group");
    reveal_strlit("--db");
    reveal_strlit("--port");
    reveal_strlit("--idle-seconds");
    assert("--group"@.len() == 7);
    assert("--db"@.len() == 4);
    assert("--port"@.len() == 6);
    assert("--idle-seconds"@.len() == 14);
    assert("--group"@ != "--db"@);
    assert("--group"@ != "--port"@);
    assert("--group"@ != "--idle-seconds"@);
    assert("--db"@ != "--port"@);
    assert("--db"@ != "--idle-seconds"@);
    assert("--port"@ != "--idle-seconds"@);
    let a = seq![program] + launch_args(group_id, db_path, port, idle_secs);
    lemma_decimal_digits(port as nat);
    lemma_decimal_digits(idle_secs as nat);
    lemma_parse_decimal(port as nat, u16::MAX as nat);
    lemma_parse_decimal(idle_secs as nat, u64::MAX as nat);
    assert(decimal(port as nat) != "--idle-seconds"@) by {
        assert(decimal(port as nat)[0] != '-');
    }
    assert(a.drop_first() =~= launch_args(group_id, db_path, port, idle_secs));
    let a1 = a.drop_first();
    let a2 = a1.drop_first();
    let a3 = a2.drop_first();
    let a4 = a3.drop_first();
    let a5 = a4.drop_first();
    let a6 = a5.drop_first();
    let a7 = a6.drop_first();
    assert(a2 =~= seq![group_id, "--db"@, db_path, "--port"@, decimal(port as nat), "--idle-seconds"@, decimal(idle_secs as nat)]);
    assert(a3 =~= seq!["--db"@, db_path, "--port"@, decimal(port as nat), "--idle-seconds"@, decimal(idle_secs as nat)]);
    assert(a4 =~= seq![db_path, "--port"@, decimal(port as nat), "--idle-seconds"@, decimal(idle_secs as nat)]);
    assert(a5 =~= seq!["--port"@, decimal(port as nat), "--idle-seconds"@, decimal(idle_secs as nat)]);
    assert(a6 =~= seq![decimal(port as nat), "--idle-seconds"@, decimal(idle_secs as nat)]);
    assert(a7 =~= seq!["--idle-seconds"@, decimal(idle_secs as nat)]);
    assert(arg_value_of(a1, "--group"@) == Some(group_id));
    assert(arg_value_of(a, "--group"@) == Some(group_id));
    assert(arg_value_of(a3, "--db"@) == Some(db_path));
    assert(arg_value_of(a2, "--db"@) == Some(db_path));
    assert(arg_value_of(a1, "--db"@) == Some(db_path));
    assert(arg_value_of(a, "--db"@) == Some(db_path));
    let p = decimal(port as nat);
    let it = decimal(idle_secs as nat);
    assert(arg_value_of(a5, "--port"@) == Some(p));
    assert(arg_value_of(a4, "--port"@) == Some(p));
    assert(arg_value_of(a3, "--port"@) == Some(p));
    assert(arg_value_of(a2, "--port"@) == Some(p));
    assert(arg_value_of(a1, "--port"@) == Some(p));
    assert(arg_value_of(a, "--port"@) == Some(p));
    assert(arg_value_of(a7, "--idle-seconds"@) == Some(it));
    assert(arg_value_of(a6, "--idle-seconds"@) == Some(it));
    assert(arg_value_of(a5, "--idle-seconds"@) == Some(it));
    assert(arg_value_of(a4, "--idle-seconds"@) == Some(it));
    assert(arg_value_of(a3, "--idle-seconds"@) == Some(it));
    assert(arg_value_of(a2, "--idle-seconds"@) == Some(it));
    assert(arg_value_of(a1, "--idle-seconds"@) == Some(it));
    assert(arg_value_of(a, "--idle-seconds"@) == Some(it));
}

/// The value of a flag is the argument right after its first occurrence anywhere
/// on the command line (an occurrence as the last argument has no value); when
/// the flag occurs nowhere before the last argument there is no value.
pub proof fn law_arg_value_first_occurrence(a: Seq<Seq<char>>, k: Seq<char>)
    ensures
        match arg_value_of(a, k) {
            Some(v) => exists|i: int|
                0 <= i && i + 1 < a.len() && #[trigger] a[i] == k && a[i + 1] == v && forall|j: int|
                    0 <= j < i ==> a[j] != k,
            None => forall|i: int| 0 <= i && i + 1 < a.len() ==> #[trigger] a[i] != k,
        },
    decreases a.len(),
{
    if a.len() >= 2 && a[0] != k {
        let t = a.drop_first();
        law_arg_value_first_occurrence(t, k);
        match arg_value_of(t, k) {
            Some(v) => {
                let i = choose|i: int|
                    0 <= i && i + 1 < t.len() && #[trigger] t[i] == k && t[i + 1] == v && forall|j: int|
                        0 <= j < i ==> t[j] != k;
                assert(a[i + 1] == t[i]);
                assert(a[i + 2] == t[i + 1]);
                assert forall|j: int| 0 <= j < i + 1 implies a[j] != k by {
                    if j > 0 {
                        assert(a[j] == t[j - 1]);
                    }
                }
            },
            None => {
                assert forall|i: int| 0 <= i && i + 1 < a.len() implies #[trigger] a[i] != k by {
                    if i > 0 {
                        assert(a[i] == t[i - 1]);
                    }
                }
            },
        }
    } else if a.len() >= 2 {
        assert(a[0] == k);
    }
}

/// The order of the flags does not matter: a command line that gives `--port`
/// first, then `--group`, then `--db`, and leaves out `--idle-seconds`, reads as
/// that group, database path and port with the default timeout of 300 seconds.
pub proof fn law_flag_order_irrelevant(program: Seq<char>, group_id: Seq<char>, db_path: Seq<char>, port: u16)
    requires
        !is_launch_flag(program),
        group_id != "--db"@,
        group_id != "--idle-seconds"@,
    ensures
        group_args_outcome(
            seq![program, "--port"@, decimal(port as nat), "--group"@, group_id, "--db"@, db_path],
        ) == Ok::<GroupConfigView, ArgError>(
            GroupConfigView { group_id, db_path, port, idle_secs: 300 },
        ),
{
    reveal_strlit("--group");
    reveal_strlit("--db");
    reveal_strlit("--port");
    reveal_strlit("--idle-seconds");
    reveal_strlit("300");
    assert("--group"@.len() == 7);
    assert("--db"@.len() == 4);
    assert("--port"@.len() == 6);
    assert("--idle-seconds"@.len() == 14);
    assert("--group"@ != "--db"@);
    assert("--group"@ != "--port"@);
    assert("--group"@ != "--idle-seconds"@);
    assert("--db"@ != "--port"@);
    assert("--db"@ != "--idle-seconds"@);
    assert("--port"@ != "--idle-seconds"@);
    let p = decimal(port as nat);
    lemma_decimal_digits(port as nat);
    lemma_parse_decimal(port as nat, u16::MAX as nat);
    assert(p != "--idle-seconds"@ && p != "--group"@ && p != "--db"@) by {
        assert(p[0] != '-');
    }
    let a = seq![program, "--port"@, p, "--group"@, group_id, "--db"@, db_path];
    let a1 = a.drop_first();
    let a2 = a1.drop_first();
    let a3 = a2.drop_first();
    let a4 = a3.drop_first();
    let a5 = a4.drop_first();
    let a6 = a5.drop_first();
    assert(a1 =~= seq!["--port"@, p, "--group"@, group_id, "--db"@, db_path]);
    assert(a2 =~= seq![p, "--group"@, group_id, "--db"@, db_path]);
    assert(a3 =~= seq!["--group"@, group_id, "--db"@, db_path]);
    assert(a4 =~= seq![group_id, "--db"@, db_path]);
    assert(a5 =~= seq!["--db"@, db_path]);
    assert(a6 =~= seq![db_path]);
    assert(arg_value_of(a1, "--port"@) == Some(p));
    assert(arg_value_of(a, "--port"@) == Some(p));
    assert(arg_value_of(a3, "--group"@) == Some(group_id));
    assert(arg_value_of(a2, "--group"@) == Some(group_id));
    assert(arg_value_of(a1, "--group"@) == Some(group_id));
    assert(arg_value_of(a, "--group"@) == Some(group_id));
    assert(arg_value_of(a5, "--db"@) == Some(db_path));
    assert(arg_value_of(a4, "--db"@) == Some(db_path));
    assert(arg_value_of(a3, "--db"@) == Some(db_path));
    assert(arg_value_of(a2, "--db"@) == Some(db_path));
    assert(arg_value_of(a1, "--db"@) == Some(db_path));
    assert(arg_value_of(a, "--db"@) == Some(db_path));
    assert(arg_value_of(a6, "--idle-seconds"@) is None);
    assert(arg_value_of(a5, "--idle-seconds"@) is None);
    assert(arg_value_of(a4, "--idle-seconds"@) is None);
    assert(arg_value_of(a3, "--idle-seconds"@) is None);
    assert(arg_value_of(a2, "--idle-seconds"@) is None);
    assert(arg_value_of(a1, "--idle-seconds"@) is None);
    assert(arg_value_of(a, "--idle-seconds"@) is None);
    let d = "300"@;
    assert(d =~= seq!['3', '0', '0']);
    assert(unsigned_digits(d) == d);
    assert(all_digits(d));
    assert(d.drop_last() =~= seq!['3', '0']);
    assert(d.drop_last().drop_last() =~= seq!['3']);
    assert(d.drop_last().drop_last().drop_last() =~= Seq::<char>::empty());
    assert(seq!['3'].drop_last() =~= Seq::<char>::empty());
    assert(seq!['3', '0'].drop_last() =~= seq!['3']);
    assert(('3' as nat) == 51);
    assert(('0' as nat) == 48);
    assert(digit_value('3') == 3);
    assert(digit_value('0') == 0);
    let s0 = Seq::<char>::empty();
    let s1 = seq!['3'];
    let s2 = seq!['3', '0'];
    assert(digits_value(s0) == 0);
    assert(s1.len() == 1 && s1.last() == '3');
    assert(s1.drop_last() =~= s0);
    assert(digits_value(s1) == digits_value(s1.drop_last()) * 10 + digit_value(s1.last()));
    assert(digits_value(s1) == 3);
    assert(s2.drop_last() =~= s1);
    assert(s2.last() == '0');
    assert(digits_value(s2) == digits_value(s2.drop_last()) * 10 + digit_value(s2.last()));
    assert(digits_value(s2) == 30);
    assert(d.drop_last() =~= s2);
    assert(d.last() == '0');
    assert(digits_value(d) == digits_value(d.drop_last()) * 10 + digit_value(d.last()));
    assert(digits_value(d) == 300);
    assert(parse_unsigned(default_idle_text(), u64::MAX as nat) == Some(300nat));
}

} // verus!
