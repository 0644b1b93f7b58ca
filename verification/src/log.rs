use vstd::prelude::*;

verus! {

/// How the time of a log line is written.
pub const DATE_TIME_FORMAT: &'static str = "%Y-%m-%d %H:%M:%S";

/// `s`, followed by as many spaces as make it `width` characters long.
pub open spec fn pad_right(s: Seq<char>, width: nat) -> Seq<char> {
    if s.len() >= width {
        s
    } else {
        s + Seq::new((width - s.len()) as nat, |i: int| ' ')
    }
}

/// A line of the log: the time, the level padded to six characters, the namespace and
/// the text, separated by `" - "`, and a line break.
pub open spec fn log_line(time: Seq<char>, level: Seq<char>, namespace: Seq<char>, text: Seq<char>) -> Seq<char> {
    time + seq![' '] + pad_right(level, 6) + seq![' ', '-', ' '] + namespace + seq![' ', '-', ' ']
        + text + seq!['\n']
}

/// The namespace of a log forked from one with namespace `parent` under `name`.
pub open spec fn child_namespace(parent: Seq<char>, name: Seq<char>) -> Seq<char> {
    parent + seq!['.'] + name
}

/// How the time in the name of a log file is written.
pub const FILE_TIME_FORMAT: &'static str = "%Y%m%dT%H%M%S";

/// What chrono writes for the UTC instant `ms` milliseconds after the Unix epoch with the
/// format `format`; `None` where chrono holds no such instant.
pub uninterp spec fn date_time_text_of(ms: i64, format: Seq<char>) -> Option<Seq<char>>;

/// What std's `Path::join` makes of the path texts `base` and `child`, on the platform
/// the crate is built for: `child` adjoined to `base` as a further component, or `child`
/// in its place where it is absolute.
pub uninterp spec fn path_join_of(base: Seq<char>, child: Seq<char>) -> Seq<char>;

/// Calls chrono's `Utc::now()`, then `timestamp_millis` and `format` on the time it reads.
/// The reading depends on the clock; the text is what chrono writes for the reading taken
/// to the millisecond (the two formats admitted write no fraction of a second), named
/// [`date_time_text_of`].
#[verifier::external_body]
fn now_with_text(format: &str) -> (r: (i64, String))
    requires
        format@ == DATE_TIME_FORMAT@ || format@ == FILE_TIME_FORMAT@,
    ensures
        date_time_text_of(r.0, format@) == Some(r.1@),
{
    let now = chrono::Utc::now();
    (now.timestamp_millis(), now.format(format).to_string())
}

/// Calls std's `Path::join` on the path texts `base` and `child`: the result is named
/// [`path_join_of`].
#[verifier::external_body]
fn join_path(base: &str, child: &str) -> (p: String)
    ensures
        p@ == path_join_of(base@, child@),
{
    std::path::Path::new(base).join(child).to_string_lossy().into_owned()
}

fn pad_level(level: &str) -> (s: String)
    ensures
        s@ == pad_right(level@, 6),
{
    let mut s = level.to_owned();
    let n = level.unicode_len();
    let mut k = n;
    proof {
        reveal_strlit(" ");
    }
    while k < 6
        invariant
            n == level@.len(),
            n <= k,
            k <= 6 || k == n,
            s@ == level@ + Seq::new((k - n) as nat, |i: int| ' '),
        decreases 6 - k,
    {
        proof {
            reveal_strlit(" ");
        }
        assert(" "@ =~= seq![' ']);
        s.append(" ");
        k = k + 1;
        assert(s@ =~= level@ + Seq::new((k - n) as nat, |i: int| ' '));
    }
    if n >= 6 {
        assert(s@ =~= level@);
    } else {
        assert(s@ =~= pad_right(level@, 6));
    }
    s
}

/// A log that writes its lines, each with a namespace, to a byte buffer.
pub struct Log<'a> {
    pub out: &'a mut Vec<u8>,
    pub namespace: String,
}

impl<'a> Log<'a> {
    pub fn new(namespace: &str, out: &'a mut Vec<u8>) -> (log: Self)
        ensures
            log.namespace@ == namespace@,
            log.out@ == old(out)@,
            final(out)@ == final(log.out)@,
    {
        Log { out, namespace: namespace.to_owned() }
    }

    pub fn info(&mut self, line: &str)
        ensures
            final(self).namespace == old(self).namespace,
            exists|ms: i64|
                #[trigger] date_time_text_of(ms, DATE_TIME_FORMAT@) matches Some(time)
                && final(self).out@ == old(self).out@ + vstd::utf8::encode_utf8(
                    log_line(time, seq!['I', 'N', 'F', 'O'], old(self).namespace@, line@),
                ),
            *final(final(self).out) == *final(old(self).out),
    {
        proof {
            reveal_strlit("INFO");
        }
        assert("INFO"@ =~= seq!['I', 'N', 'F', 'O']);
        self.writeln("INFO", line);
    }

    pub fn error(&mut self, line: &str)
        ensures
            final(self).namespace == old(self).namespace,
            exists|ms: i64|
                #[trigger] date_time_text_of(ms, DATE_TIME_FORMAT@) matches Some(time)
                && final(self).out@ == old(self).out@ + vstd::utf8::encode_utf8(
                    log_line(time, seq!['E', 'R', 'R', 'O', 'R'], old(self).namespace@, line@),
                ),
            *final(final(self).out) == *final(old(self).out),
    {
        proof {
            reveal_strlit("ERROR");
        }
        assert("ERROR"@ =~= seq!['E', 'R', 'R', 'O', 'R']);
        self.writeln("ERROR", line);
    }

    /// A log that writes to the same buffer under the namespace `{parent}.{name}`.
    pub fn fork(name: &str, log: &'a mut Log) -> (child: Log<'a>)
        ensures
            child.namespace@ == child_namespace(old(log).namespace@, name@),
            child.out@ == old(log).out@,
            final(child.out)@ == final(log).out@,
            final(log).namespace == old(log).namespace,
            *final(final(log).out) == *final(old(log).out),
    {
        let mut namespace = log.namespace.clone();
        proof {
            reveal_strlit(".");
        }
        namespace.append(".");
        namespace.append(name);
        assert(namespace@ =~= child_namespace(log.namespace@, name@));
        Log { out: log.out, namespace }
    }

    fn writeln(&mut self, level: &str, line: &str)
        ensures
            final(self).namespace == old(self).namespace,
            exists|ms: i64|
                #[trigger] date_time_text_of(ms, DATE_TIME_FORMAT@) matches Some(time)
                && final(self).out@ == old(self).out@ + vstd::utf8::encode_utf8(
                    log_line(time, level@, old(self).namespace@, line@),
                ),
            *final(final(self).out) == *final(old(self).out),
    {
        let (ms, time) = now_with_text(DATE_TIME_FORMAT);
        let mut text = time.clone();
        proof {
            reveal_strlit(" ");
            reveal_strlit(" - ");
            reveal_strlit("\n");
        }
        text.append(" ");
        let padded = pad_level(level);
        text.append(padded.as_str());
        text.append(" - ");
        text.append(self.namespace.as_str());
        text.append(" - ");
        text.append(line);
        text.append("\n");
        assert(text@ =~= log_line(time@, level@, self.namespace@, line@));
        let bytes = text.as_str().as_bytes();
        let ghost before = self.out@;
        self.out.extend_from_slice(bytes);
        assert(self.out@ =~= before + vstd::utf8::encode_utf8(text@));
        assert(date_time_text_of(ms, DATE_TIME_FORMAT@) == Some(time@));
    }
}

/// The directory under which a log file goes: the root, or `child` below it.
pub open spec fn log_directory(root: Seq<char>, child: Option<Seq<char>>) -> Seq<char> {
    match child {
        None => root,
        Some(c) => path_join_of(root, c),
    }
}

/// The name of a log file written at the time `time`: the time, `_` and `postfix`.
pub open spec fn log_file_name(time: Seq<char>, postfix: Seq<char>) -> Seq<char> {
    time + seq!['_'] + postfix
}

/// The text of an optional text.
pub open spec fn opt_text_of(o: Option<&str>) -> Option<Seq<char>> {
    match o {
        None => None,
        Some(c) => Some(c@),
    }
}

/// Where the files of a run's logs go: below a root directory, given by its path text.
pub struct LogFileSystem {
    root: String,
}

impl LogFileSystem {
    pub fn new(root: String) -> (fs: Self)
        ensures
            fs.root() == root@,
    {
        LogFileSystem { root }
    }

    pub closed spec fn root(&self) -> Seq<char> {
        self.root@
    }

    /// The path of a log file under the root (under `child_path` below it, where given)
    /// whose file name is the current time, `_` and `postfix`.
    pub fn get_path(&self, postfix: &str, child_path: Option<&str>) -> (p: String)
        ensures
            exists|ms: i64|
                #[trigger] date_time_text_of(ms, FILE_TIME_FORMAT@) matches Some(time)
                && p@ == path_join_of(log_directory(self.root(), opt_text_of(child_path)), log_file_name(time, postfix@)),
    {
        let (ms, mut file_name) = now_with_text(FILE_TIME_FORMAT);
        let ghost time = file_name@;
        proof {
            reveal_strlit("_");
        }
        file_name.append("_");
        file_name.append(postfix);
        assert(file_name@ =~= log_file_name(time, postfix@));
        let p = match child_path {
            None => join_path(self.root.as_str(), file_name.as_str()),
            Some(v) => {
                let dir = join_path(self.root.as_str(), v);
                join_path(dir.as_str(), file_name.as_str())
            },
        };
        assert(date_time_text_of(ms, FILE_TIME_FORMAT@) == Some(time));
        p
    }
}

} // verus!
