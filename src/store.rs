use vstd::prelude::*;

use crate::child::Error;

verus! {

/// The text that `str::trim` leaves of `s`.
pub uninterp spec fn trimmed(s: Seq<char>) -> Seq<char>;

/// Relies on `str::trim`: it removes leading and trailing white space, and
/// what it leaves depends on the characters of `s` alone, so trimming that
/// again leaves it as it is.
#[verifier::external_body]
fn trim(s: &str) -> (r: String)
    ensures
        r@ == trimmed(s@),
        trimmed(r@) == r@,
{
    s.trim().to_owned()
}

/// The name of the latest binary that a version record holds, or
/// `BinaryNotFound` where the record is absent or could not be read.
pub open spec fn spec_latest_name(record: Option<Seq<char>>) -> Result<Seq<char>, Error> {
    match record {
        Some(text) => Ok(trimmed(text)),
        None => Err(Error::BinaryNotFound),
    }
}

/// Reads the name of the latest binary out of the version record's text,
/// `None` standing for a record that is absent or unreadable. The name is
/// the trimmed text; the caller joins it onto the update directory.
pub fn latest_exe_name(record: Option<String>) -> (r: Result<String, Error>)
    ensures
        r is Ok <==> record is Some,
        r is Err ==> r == Err::<String, Error>(Error::BinaryNotFound),
        record is Some ==> r->Ok_0@ == trimmed(record->0@),
{
    match record {
        Some(text) => Ok(trim(text.as_str())),
        None => Err(Error::BinaryNotFound),
    }
}

/// The pending configuration override, as the file that holds it: `content`
/// is `None` where no such file exists or it cannot be read.
pub struct OverrideRecord {
    pub content: Option<String>,
}

/// The record after `value` is written to it.
pub open spec fn spec_write(record: Option<Seq<char>>, value: Seq<char>) -> Option<Seq<char>> {
    Some(value)
}

/// What taking the override out of `record` yields.
pub open spec fn spec_taken(record: Option<Seq<char>>) -> Option<Seq<char>> {
    match record {
        Some(text) => Some(trimmed(text)),
        None => None,
    }
}

/// The record after its override is taken out.
pub open spec fn spec_after_take(record: Option<Seq<char>>) -> Option<Seq<char>> {
    None
}

impl View for OverrideRecord {
    type V = Option<Seq<char>>;

    open spec fn view(&self) -> Option<Seq<char>> {
        match self.content {
            Some(text) => Some(text@),
            None => None,
        }
    }
}

impl OverrideRecord {
    /// A record that holds no pending override.
    pub fn empty() -> (r: OverrideRecord)
        ensures
            r@ is None,
    {
        OverrideRecord { content: None }
    }

    /// Stores `value` as the pending override, in place of any earlier one.
    pub fn set_spec_name_override(&mut self, value: &str)
        ensures
            final(self)@ == spec_write(old(self)@, value@),
    {
        self.content = Some(value.to_owned());
    }

    /// Takes the pending override out: returns its trimmed text where there
    /// is one, and leaves the record empty in every case, so that a value is
    /// never applied twice.
    pub fn take_spec_name_override(&mut self) -> (r: Option<String>)
        ensures
            r is Some <==> old(self)@ is Some,
            r is Some ==> Some(r->0@) == spec_taken(old(self)@),
            r is None ==> spec_taken(old(self)@) is None,
            final(self)@ == spec_after_take(old(self)@),
    {
        let r = match &self.content {
            Some(text) => Some(trim(text.as_str())),
            None => None,
        };
        self.content = None;
        r
    }
}

/// Writing an override and then taking it twice yields the trimmed value the
/// first time and nothing the second time, whatever the record held before;
/// a value without surrounding white space comes back as it was written.
pub proof fn lemma_override_taken_once(before: Option<Seq<char>>, value: Seq<char>)
    ensures
        spec_taken(spec_write(before, value)) == Some(trimmed(value)),
        spec_taken(spec_after_take(spec_write(before, value))) is None,
        trimmed(value) == value ==> spec_taken(spec_write(before, value)) == Some(value),
{
}

} // verus!
