use vstd::prelude::*;

verus! {

/// A text that can stand as one line of the log: a single JSON object
/// written on one line, so that it begins with `{`, ends with `}` and holds
/// no line break.
pub open spec fn is_record_line(s: Seq<char>) -> bool {
    &&& s.len() >= 2
    &&& s[0] == '{'
    &&& s.last() == '}'
    &&& forall|i: int| 0 <= i < s.len() ==> s[i] != '\n' && s[i] != '\r'
}

/// Whether `s` can stand as one line of the log.
pub fn check_record_line(s: &str) -> (r: bool)
    ensures
        r == is_record_line(s@),
{
    broadcast use vstd::string::axiom_spec_iter;

    let mut seen: usize = 0;
    let mut first: char = ' ';
    let mut last: char = ' ';
    let mut no_break = true;
    for c in it: s.chars()
        invariant
            it.seq() == s@,
            seen == if it.index() < 2 { it.index() as int } else { 2 },
            it.index() > 0 ==> first == s@[0] && last == s@[it.index() - 1],
            no_break == forall|i: int| 0 <= i < it.index() ==> s@[i] != '\n' && s@[i] != '\r',
    {
        if seen == 0 {
            first = c;
        }
        last = c;
        if c == '\n' || c == '\r' {
            no_break = false;
        }
        if seen < 2 {
            seen = seen + 1;
        }
    }
    seen == 2 && first == '{' && last == '}' && no_break
}

/// One frame sample, serialised as a single-line JSON object.
pub struct SampleLine {
    text: String,
}

impl View for SampleLine {
    type V = Seq<char>;

    closed spec fn view(&self) -> Seq<char> {
        self.text@
    }
}

impl SampleLine {
    #[verifier::type_invariant]
    spec fn inv(&self) -> bool {
        is_record_line(self.text@)
    }

    /// Takes `text` as a log line; `None` where it is not a single-line JSON
    /// object.
    pub fn new(text: String) -> (r: Option<SampleLine>)
        ensures
            r is Some <==> is_record_line(text@),
            r matches Some(l) ==> l@ == text@,
    {
        if check_record_line(text.as_str()) {
            Some(SampleLine { text })
        } else {
            None
        }
    }

    pub fn as_str(&self) -> (r: &str)
        ensures
            r@ == self@,
    {
        self.text.as_str()
    }

    /// The line itself.
    pub fn into_string(self) -> (r: String)
        ensures
            r@ == self@,
            is_record_line(r@),
    {
        proof { use_type_invariant(&self); }
        self.text
    }

}

} // verus!
