use validator::ValidateEmail;
use vstd::prelude::*;

verus! {

/// Whether the `validator` crate's e-mail check (the HTML5 form of an address,
/// with RFC 5321 length limits and internationalised domains) accepts the text.
pub uninterp spec fn email_is_valid(text: Seq<char>) -> bool;

/// Asks `validator::ValidateEmail::validate_email` whether `candidate` is an e-mail address.
///
/// Trusted: the answer is `email_is_valid` of the text; and, as the crate's source shows
/// (it returns `false` at once for an empty text or one without an `@`), an accepted text
/// is non-empty and holds an `@`.
#[verifier::external_body]
fn validate_email(candidate: &String) -> (accepted: bool)
    ensures
        accepted == email_is_valid(candidate@),
        accepted ==> candidate@.len() > 0 && candidate@.contains('@'),
{
    ValidateEmail::validate_email(candidate)
}

/// The text of the error that a rejected candidate is answered with.
pub open spec fn invalid_email_message(candidate: Seq<char>) -> Seq<char> {
    candidate + " is not a valid subscriber email."@
}

/// What parsing a candidate gives: the candidate when the e-mail check accepts it,
/// else the error text that names it.
pub open spec fn parse_outcome(candidate: Seq<char>) -> Result<Seq<char>, Seq<char>> {
    if email_is_valid(candidate) {
        Ok(candidate)
    } else {
        Err(invalid_email_message(candidate))
    }
}

/// A subscriber's e-mail address, as text that the e-mail check accepted.
#[derive(Debug)]
pub struct SubscriberEmail(String);

impl View for SubscriberEmail {
    type V = Seq<char>;

    closed spec fn view(&self) -> Seq<char> {
        self.0@
    }
}

impl SubscriberEmail {
    /// Every subscriber e-mail holds a text that the e-mail check accepts.
    #[verifier::type_invariant]
    closed spec fn holds_valid_email(self) -> bool {
        email_is_valid(self.0@)
    }

    /// Parses a candidate address: accepted exactly when the e-mail check accepts it,
    /// in which case the text is kept as it is.
    pub fn parse(s: String) -> (r: Result<SubscriberEmail, String>)
        ensures
            r is Ok <==> email_is_valid(s@),
            r matches Ok(e) ==> e@ == s@,
            r matches Err(msg) ==> msg@ == invalid_email_message(s@),
            r is Ok ==> s@.len() > 0 && s@.contains('@'),
            r matches Ok(e) ==> parse_outcome(s@) == Ok::<Seq<char>, Seq<char>>(e@),
            r matches Err(msg) ==> parse_outcome(s@) == Err::<Seq<char>, Seq<char>>(msg@),
    {
        let accepted = validate_email(&s);
        match email_verdict(s, accepted) {
            Ok(text) => Ok(SubscriberEmail(text)),
            Err(msg) => Err(msg),
        }
    }

    /// The address text.
    pub fn as_ref(&self) -> (r: &String)
        ensures
            r@ == self@,
            email_is_valid(r@),
    {
        proof {
            use_type_invariant(self);
        }
        &self.0
    }
}

impl AsRef<String> for SubscriberEmail {
    /// The address text, as `SubscriberEmail::as_ref` gives it.
    fn as_ref(&self) -> &String {
        SubscriberEmail::as_ref(self)
    }
}

impl Clone for SubscriberEmail {
    /// A copy of the address.
    fn clone(&self) -> (copy: Self)
        ensures
            copy@ == self@,
    {
        proof {
            use_type_invariant(self);
        }
        SubscriberEmail(self.0.clone())
    }
}

/// Turns the e-mail check's answer on `candidate` into the outcome of a parse:
/// the candidate itself when accepted, else the error text that names it.
pub fn email_verdict(candidate: String, accepted: bool) -> (r: Result<String, String>)
    ensures
        accepted ==> (r matches Ok(text) && text@ == candidate@),
        !accepted ==> (r matches Err(msg) && msg@ == invalid_email_message(candidate@)),
{
    if accepted {
        Ok(candidate)
    } else {
        let mut msg = candidate;
        msg.append(" is not a valid subscriber email.");
        Err(msg)
    }
}

/// Parsing is idempotent: the text of an accepted address is accepted again, unchanged,
/// so re-parsing the text of any subscriber e-mail gives back the same address.
pub proof fn lemma_parse_idempotent(candidate: Seq<char>)
    requires
        parse_outcome(candidate) is Ok,
    ensures
        parse_outcome(parse_outcome(candidate)->Ok_0) == parse_outcome(candidate),
{
}

/// A rejected candidate is answered with a message that starts with the candidate itself,
/// so two different rejected candidates are never answered alike.
pub proof fn lemma_rejection_names_candidate(a: Seq<char>, b: Seq<char>)
    requires
        parse_outcome(a) is Err,
        parse_outcome(b) is Err,
        parse_outcome(a) == parse_outcome(b),
    ensures
        a == b,
{
    let suffix = " is not a valid subscriber email."@;
    assert(invalid_email_message(a) == a + suffix);
    assert(invalid_email_message(b) == b + suffix);
    assert(a.len() == b.len());
    assert(a =~= (a + suffix).subrange(0, a.len() as int));
    assert(b =~= (b + suffix).subrange(0, b.len() as int));
}

} // verus!
