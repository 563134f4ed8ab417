use vstd::prelude::*;

verus! {

/// The largest number of bytes a title may take in UTF-8.
pub const MAX_TITLE_BYTES: usize = 50;

/// The length in bytes of the UTF-8 encoding of `s`.
pub open spec fn byte_len(s: Seq<char>) -> nat {
    vstd::utf8::encode_utf8(s).len()
}

/// Why a text was refused as a title.
#[derive(Debug, Clone, Copy, PartialEq, Eq, Structural)]
pub enum TitleConversionError {
    Empty,
    TooLong,
}

impl TitleConversionError {
    /// The human-readable message of each error.
    pub open spec fn message(self) -> Seq<char> {
        match self {
            TitleConversionError::Empty => "The title cannot be empty"@,
            TitleConversionError::TooLong => "The title cannot be longer than 50 bytes"@,
        }
    }

    /// The message of this error as a string.
    pub fn to_string(&self) -> (r: String)
        ensures
            r@ == self.message(),
    {
        match self {
            TitleConversionError::Empty => "The title cannot be empty".to_owned(),
            TitleConversionError::TooLong => "The title cannot be longer than 50 bytes".to_owned(),
        }
    }
}

/// The validation rule: an empty text is refused with `Empty`, a text of
/// more than fifty bytes with `TooLong`; any other text is accepted.
pub open spec fn title_check(s: Seq<char>) -> Result<(), TitleConversionError> {
    if s.len() == 0 {
        Err(TitleConversionError::Empty)
    } else if byte_len(s) > MAX_TITLE_BYTES {
        Err(TitleConversionError::TooLong)
    } else {
        Ok(())
    }
}

/// Whether `s` may be the text of a title.
pub open spec fn is_valid_title(s: Seq<char>) -> bool {
    title_check(s) is Ok
}

/// What a conversion of the text `s` gives: the text itself as the title's
/// content, or the error of the validation rule.
pub open spec fn title_outcome(s: Seq<char>) -> Result<Seq<char>, TitleConversionError> {
    match title_check(s) {
        Ok(_) => Ok(s),
        Err(e) => Err(e),
    }
}

/// Every non-empty text of at most fifty bytes is accepted, and the title
/// holds that text exactly.
pub proof fn lemma_short_text_accepted(s: Seq<char>)
    requires
        s.len() > 0,
        byte_len(s) <= MAX_TITLE_BYTES,
    ensures
        title_outcome(s) == Ok::<Seq<char>, TitleConversionError>(s),
{
}

/// The empty text is refused with `Empty`.
pub proof fn lemma_empty_text_refused(s: Seq<char>)
    requires
        s.len() == 0,
    ensures
        title_outcome(s) == Err::<Seq<char>, TitleConversionError>(TitleConversionError::Empty),
{
}

/// Every text of more than fifty bytes is refused with `TooLong`.
pub proof fn lemma_long_text_refused(s: Seq<char>)
    requires
        byte_len(s) > MAX_TITLE_BYTES,
    ensures
        title_outcome(s) == Err::<Seq<char>, TitleConversionError>(TitleConversionError::TooLong),
{
    if s.len() == 0 {
        assert(vstd::utf8::encode_utf8(s) =~= Seq::<u8>::empty());
    }
}

/// The conversion from an owned string and the one from a borrowed string
/// agree on texts with the same content: both are described by
/// `title_outcome` of that content.
pub proof fn lemma_owned_and_borrowed_agree(borrowed: &str, owned: String)
    requires
        borrowed@ == owned@,
    ensures
        title_outcome(borrowed@) == title_outcome(owned@),
{
}

/// Converting the text of a valid title again succeeds and gives back the
/// same text.
pub proof fn lemma_rebuild_from_text(text: Seq<char>)
    requires
        is_valid_title(text),
    ensures
        title_outcome(text) == Ok::<Seq<char>, TitleConversionError>(text),
        title_outcome(text) matches Ok(t) && title_outcome(t) == title_outcome(text),
{
}

/// Checks `title` against the validation rule.
pub fn validate(title: &str) -> (r: Result<(), TitleConversionError>)
    ensures
        r == title_check(title@),
{
    if title.is_empty() {
        Err(TitleConversionError::Empty)
    } else if title.as_bytes().len() > MAX_TITLE_BYTES {
        Err(TitleConversionError::TooLong)
    } else {
        Ok(())
    }
}

/// The title of a ticket: a non-empty text of at most fifty bytes.
#[derive(Debug, PartialEq)]
pub struct TicketTitle(String);

impl View for TicketTitle {
    type V = Seq<char>;

    closed spec fn view(&self) -> Seq<char> {
        self.0@
    }
}

/// The content of a conversion's result, seen through the title's text.
pub open spec fn result_view(r: Result<TicketTitle, TitleConversionError>) -> Result<
    Seq<char>,
    TitleConversionError,
> {
    match r {
        Ok(t) => Ok(t@),
        Err(e) => Err(e),
    }
}

impl TicketTitle {
    #[verifier::type_invariant]
    spec fn inv(self) -> bool {
        is_valid_title(self.0@)
    }

    /// The text of the title.
    pub fn as_str(&self) -> (r: &str)
        ensures
            r@ == self@,
            is_valid_title(r@),
            title_outcome(r@) == Ok::<Seq<char>, TitleConversionError>(r@),
    {
        proof {
            use_type_invariant(self);
        }
        self.0.as_str()
    }

    /// Gives back the text of the title.
    pub fn into_string(self) -> (r: String)
        ensures
            r@ == self@,
            is_valid_title(r@),
            title_outcome(r@) == Ok::<Seq<char>, TitleConversionError>(r@),
    {
        proof {
            use_type_invariant(&self);
        }
        self.0
    }
}

impl Clone for TicketTitle {
    fn clone(&self) -> (r: Self)
        ensures
            r@ == self@,
    {
        proof {
            use_type_invariant(self);
        }
        TicketTitle(self.0.clone())
    }
}

impl TryFrom<&str> for TicketTitle {
    type Error = TitleConversionError;

    fn try_from(value: &str) -> (r: Result<Self, Self::Error>)
        ensures
            result_view(r) == title_outcome(value@),
    {
        match validate(value) {
            Ok(()) => Ok(TicketTitle(value.to_owned())),
            Err(e) => Err(e),
        }
    }
}

impl TryFrom<String> for TicketTitle {
    type Error = TitleConversionError;

    fn try_from(value: String) -> (r: Result<Self, Self::Error>)
        ensures
            result_view(r) == title_outcome(value@),
    {
        match validate(value.as_str()) {
            Ok(()) => Ok(TicketTitle(value)),
            Err(e) => Err(e),
        }
    }
}

// Titles with the same text may differ as values, so the conversions are
// described by their own `ensures` over the title's view rather than by a
// single spec-level result.
impl vstd::std_specs::convert::TryFromSpecImpl<&str> for TicketTitle {
    open spec fn obeys_try_from_spec() -> bool {
        false
    }

    open spec fn try_from_spec(v: &str) -> Result<Self, Self::Error> {
        match title_check(v@) {
            Ok(_) => Ok(choose|t: TicketTitle| t@ == v@),
            Err(e) => Err(e),
        }
    }
}

impl vstd::std_specs::convert::TryFromSpecImpl<String> for TicketTitle {
    open spec fn obeys_try_from_spec() -> bool {
        false
    }

    open spec fn try_from_spec(v: String) -> Result<Self, Self::Error> {
        match title_check(v@) {
            Ok(_) => Ok(choose|t: TicketTitle| t@ == v@),
            Err(e) => Err(e),
        }
    }
}

} // verus!
