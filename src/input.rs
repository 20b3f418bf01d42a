use vstd::prelude::*;
use crate::cli::Args;
use crate::isbn::{strip_hyphens, Isbn};

verus! {

/// `s` with every carriage return that comes right before a line feed removed.
pub open spec fn drop_cr(s: Seq<char>) -> Seq<char>
    decreases s.len(),
{
    if s.len() == 0 {
        Seq::empty()
    } else if s[0] == '\r' && s.len() > 1 && s[1] == '\n' {
        drop_cr(s.drop_first())
    } else {
        seq![s[0]] + drop_cr(s.drop_first())
    }
}

pub open spec fn is_sep(c: char) -> bool {
    c == ' ' || c == '\n'
}

/// The pieces of `s` between spaces and line feeds, empty pieces included.
pub open spec fn pieces(s: Seq<char>) -> Seq<Seq<char>>
    decreases s.len(),
{
    if s.len() == 0 {
        seq![Seq::empty()]
    } else {
        let p = pieces(s.drop_last());
        if is_sep(s.last()) {
            p.push(Seq::empty())
        } else {
            p.update(p.len() - 1, p.last().push(s.last()))
        }
    }
}

/// The words of a text: its lines (a final line feed ends the last line and
/// starts no new one; `\r\n` ends a line like `\n`), each split at every space.
pub open spec fn words(s: Seq<char>) -> Seq<Seq<char>> {
    let n = drop_cr(s);
    if n.len() == 0 {
        Seq::empty()
    } else if n.last() == '\n' {
        pieces(n.drop_last())
    } else {
        pieces(n)
    }
}

/// The identifiers built from raw texts, one for one.
pub open spec fn isbns_of(raw: Seq<Seq<char>>, r: Seq<Isbn>) -> bool {
    &&& r.len() == raw.len()
    &&& forall|i: int| 0 <= i < raw.len() ==> (#[trigger] r[i])@ == strip_hyphens(raw[i])
}

/// Where the identifiers come from.
pub enum InputSource {
    /// The identifiers given as arguments.
    Arguments,
    /// The file at this path, one or more identifiers per line.
    File(String),
    /// The standard input, read whole.
    Stream,
}

/// Why the identifiers could not be read.
pub enum InputError {
    NoFileProvided,
    ReadFileError(String, String),
    IoError(String),
}

impl InputError {
    pub open spec fn spec_message(&self) -> Seq<char> {
        match self {
            InputError::NoFileProvided => "No input file provided."@,
            InputError::ReadFileError(f, e) => "Cannot read from file \""@ + f@ + "\": "@ + e@,
            InputError::IoError(e) => "Impossible to read stdin: "@ + e@,
        }
    }

    /// What went wrong, in words.
    pub fn message(&self) -> (r: String)
        ensures
            r@ == self.spec_message(),
    {
        match self {
            InputError::NoFileProvided => String::from_str("No input file provided."),
            InputError::ReadFileError(f, e) => {
                let mut m = String::from_str("Cannot read from file \"");
                m.append(f.as_str());
                m.append("\": ");
                m.append(e.as_str());
                m
            },
            InputError::IoError(e) => {
                let mut m = String::from_str("Impossible to read stdin: ");
                m.append(e.as_str());
                m
            },
        }
    }
}

/// Reads the requested identifiers.
pub struct InputReader;

impl InputReader {
    /// The identifiers asked for: those given as arguments, or else those of the
    /// text that was read from `input_source(args, piped)`.
    pub fn read(args: &Args, piped: bool, text: Result<String, InputError>) -> (r: Result<
        Vec<Isbn>,
        InputError,
    >)
        ensures
            read_spec(*args, piped, text, r),
    {
        read_input(args, piped, text)
    }
}

/// What `read` yields.
pub open spec fn read_spec(
    args: Args,
    piped: bool,
    text: Result<String, InputError>,
    r: Result<Vec<Isbn>, InputError>,
) -> bool {
    if args.isbn_list@.len() == 0 && (args.input_file is Some || piped) {
        match text {
            Ok(t) => r matches Ok(v) && isbns_of(words(t@), v@),
            Err(e) => r == Err::<Vec<Isbn>, InputError>(e),
        }
    } else {
        r matches Ok(v) && isbns_of(args.isbn_list@.map_values(|s: String| s@), v@)
    }
}

/// The source to read: the arguments where any were given; else the input
/// file where one was named; else the standard input where data is piped in;
/// else the (empty) arguments.
pub fn input_source(args: &Args, piped: bool) -> (r: InputSource)
    ensures
        args.isbn_list@.len() > 0 ==> r is Arguments,
        args.isbn_list@.len() == 0 ==> match args.input_file {
            Some(f) => r matches InputSource::File(p) && p@ == f@,
            None => if piped { r is Stream } else { r is Arguments },
        },
{
    if args.isbn_list.len() > 0 {
        InputSource::Arguments
    } else {
        match &args.input_file {
            Some(f) => InputSource::File(f.clone()),
            None => if piped { InputSource::Stream } else { InputSource::Arguments },
        }
    }
}

fn read_input(args: &Args, piped: bool, text: Result<String, InputError>) -> (r: Result<
    Vec<Isbn>,
    InputError,
>)
    ensures
        read_spec(*args, piped, text, r),
{
    let has_arguments = args.isbn_list.len() > 0;
    let has_file_option = args.input_file.is_some();
    if !has_arguments && (has_file_option || piped) {
        match text {
            Ok(t) => Ok(parse_input_to_isbn(t.as_str())),
            Err(e) => Err(e),
        }
    } else {
        Ok(list_to_isbn(args))
    }
}

fn isbns_from(list: &[String]) -> (r: Vec<Isbn>)
    ensures
        isbns_of(list@.map_values(|s: String| s@), r@),
{
    let mut out: Vec<Isbn> = Vec::new();
    let mut i: usize = 0;
    while i < list.len()
        invariant
            i <= list@.len(),
            out@.len() == i,
            forall|k: int| 0 <= k < i ==> (#[trigger] out@[k])@ == strip_hyphens(list@[k]@),
        decreases list@.len() - i,
    {
        out.push(Isbn::new(list[i].as_str()));
        i += 1;
    }
    out
}

/// The identifiers given as arguments.
pub fn list_to_isbn(args: &Args) -> (r: Vec<Isbn>)
    ensures
        isbns_of(args.isbn_list@.map_values(|s: String| s@), r@),
{
    isbns_from(args.isbn_list.as_slice())
}

/// One identifier for each string, in order.
pub fn map_list_to_isbn(list: Vec<String>) -> (r: Vec<Isbn>)
    ensures
        isbns_of(list@.map_values(|s: String| s@), r@),
{
    isbns_from(list.as_slice())
}

/// `drop_cr` of `s`.
fn without_crlf(s: &str) -> (r: String)
    ensures
        r@ == drop_cr(s@),
{
    let n = s.unicode_len();
    let mut out = String::new();
    let mut i: usize = 0;
    assert(s@.subrange(0, n as int) =~= s@);
    while i < n
        invariant
            n == s@.len(),
            i <= n,
            drop_cr(s@) == out@ + drop_cr(s@.subrange(i as int, n as int)),
        decreases n - i,
    {
        let ghost rest = s@.subrange(i as int, n as int);
        assert(rest.drop_first() =~= s@.subrange(i + 1, n as int));
        let c = s.get_char(i);
        let crlf = c == '\r' && i + 1 < n && s.get_char(i + 1) == '\n';
        if !crlf {
            let ghost before = out@;
            out.append(s.substring_char(i, i + 1));
            assert(out@ == before + seq![c]);
            assert(before + (seq![c] + drop_cr(rest.drop_first())) =~= (before + seq![c]) + drop_cr(rest.drop_first()));
        }
        i += 1;
    }
    assert(s@.subrange(n as int, n as int) =~= Seq::<char>::empty());
    assert(out@ + Seq::<char>::empty() =~= out@);
    out
}

/// `pieces` of `s`.
fn split_pieces(s: &str) -> (r: Vec<String>)
    ensures
        r@.map_values(|x: String| x@) == pieces(s@),
{
    let n = s.unicode_len();
    let mut done: Vec<String> = Vec::new();
    let mut cur = String::new();
    let mut i: usize = 0;
    assert(done@.map_values(|x: String| x@).push(cur@) =~= pieces(s@.subrange(0, 0)));
    while i < n
        invariant
            n == s@.len(),
            i <= n,
            done@.map_values(|x: String| x@).push(cur@) == pieces(s@.subrange(0, i as int)),
        decreases n - i,
    {
        let ghost prev = done@.map_values(|x: String| x@);
        assert(s@.subrange(0, i + 1).drop_last() =~= s@.subrange(0, i as int));
        let c = s.get_char(i);
        if c == ' ' || c == '\n' {
            let piece = cur;
            cur = String::new();
            done.push(piece);
            assert(done@.map_values(|x: String| x@) =~= prev.push(piece@));
        } else {
            let ghost before = cur@;
            cur.append(s.substring_char(i, i + 1));
            assert(cur@ =~= before.push(c));
            assert(prev.push(cur@) =~= prev.push(before).update(prev.len() as int, before.push(c)));
        }
        i += 1;
    }
    assert(s@.subrange(0, n as int) =~= s@);
    done.push(cur);
    assert(done@.map_values(|x: String| x@) =~= pieces(s@));
    done
}

/// The identifiers of a text: one for each word of each line.
pub fn parse_input_to_isbn(data: &str) -> (r: Vec<Isbn>)
    ensures
        isbns_of(words(data@), r@),
{
    let norm = without_crlf(data);
    let len = norm.as_str().unicode_len();
    if len == 0 {
        return Vec::new();
    }
    let body = if norm.as_str().get_char(len - 1) == '\n' {
        norm.as_str().substring_char(0, len - 1)
    } else {
        norm.as_str()
    };
    proof {
        if norm@.last() == '\n' {
            assert(body@ =~= norm@.drop_last());
        } else {
            assert(body@ =~= norm@.subrange(0, len as int));
            assert(norm@.subrange(0, len as int) =~= norm@);
        }
    }
    let parts = split_pieces(body);
    let r = map_list_to_isbn(parts);
    r
}

} // verus!
