use crate::domain::SubscriberEmail;
use secrecy::{ExposeSecret, SecretString};
use std::time::Duration;
use vstd::prelude::*;

verus! {

/// An API key, kept in a `secrecy::SecretString` so that it is wiped when dropped
/// and never printed.
#[verifier::external_body]
pub struct ApiKey {
    secret: SecretString,
}

/// The text of an API key.
pub uninterp spec fn api_key_text(key: ApiKey) -> Seq<char>;

impl ApiKey {
    /// Seals `text` in a `SecretString` through `secrecy`'s `From<String>`.
    ///
    /// Trusted: the sealed key's text is `text`; the source boxes the string as it is.
    #[verifier::external_body]
    fn seal(text: String) -> (key: ApiKey)
        ensures
            api_key_text(key) == text@,
    {
        ApiKey { secret: SecretString::from(text) }
    }

    /// Reads the key's text through `secrecy::ExposeSecret::expose_secret`.
    ///
    /// Trusted: the text handed out is `api_key_text` of the key; the source returns a
    /// reference to the boxed text, which a shared borrow cannot change.
    #[verifier::external_body]
    fn expose(&self) -> (text: &str)
        ensures
            text@ == api_key_text(*self),
    {
        self.secret.expose_secret()
    }
}

/// What an e-mail client is made of, as plain values.
pub struct EmailClientView {
    pub sender: Seq<char>,
    pub base_url: Seq<char>,
    pub api_user: Seq<char>,
    pub api_key: Seq<char>,
    pub timeout: Duration,
}

/// A client of the SendCloud mail API: who sends, where to, with which credentials.
pub struct EmailClient {
    sender: SubscriberEmail,
    base_url: String,
    api_user: String,
    api_key: ApiKey,
    timeout: Duration,
}

impl View for EmailClient {
    type V = EmailClientView;

    closed spec fn view(&self) -> EmailClientView {
        EmailClientView {
            sender: self.sender@,
            base_url: self.base_url@,
            api_user: self.api_user@,
            api_key: api_key_text(self.api_key),
            timeout: self.timeout,
        }
    }
}

/// The path, below the API's base URL, to which a mail is posted.
pub open spec fn mail_send_url(base_url: Seq<char>) -> Seq<char> {
    base_url + "/mail/send"@
}

/// The form of a send request, field by field and in this order.
pub open spec fn email_form_spec(
    api_user: Seq<char>,
    api_key: Seq<char>,
    from: Seq<char>,
    to: Seq<char>,
    subject: Seq<char>,
    html: Seq<char>,
) -> Seq<(Seq<char>, Seq<char>)> {
    seq![
        ("apiUser"@, api_user),
        ("apiKey"@, api_key),
        ("from"@, from),
        ("to"@, to),
        ("subject"@, subject),
        ("html"@, html),
    ]
}

/// The text of each name and value of a form.
pub open spec fn form_view(form: Seq<(String, String)>) -> Seq<(Seq<char>, Seq<char>)> {
    form.map_values(|field: (String, String)| (field.0@, field.1@))
}

/// The six field names of a send request are pairwise distinct, so a server that reads the
/// form into a map from name to value finds every field, each with its own value.
pub proof fn lemma_form_names_distinct(
    api_user: Seq<char>,
    api_key: Seq<char>,
    from: Seq<char>,
    to: Seq<char>,
    subject: Seq<char>,
    html: Seq<char>,
)
    ensures
        email_form_spec(api_user, api_key, from, to, subject, html).len() == 6,
        forall|i: int, j: int|
            0 <= i < j < 6 ==> #[trigger] email_form_spec(api_user, api_key, from, to, subject, html)[i].0
                != #[trigger] email_form_spec(api_user, api_key, from, to, subject, html)[j].0,
{
    reveal_strlit("apiUser");
    reveal_strlit("apiKey");
    reveal_strlit("from");
    reveal_strlit("to");
    reveal_strlit("subject");
    reveal_strlit("html");
    let form = email_form_spec(api_user, api_key, from, to, subject, html);
    assert forall|i: int, j: int| 0 <= i < j < 6 implies #[trigger] form[i].0 != #[trigger] form[j].0 by {
        assert(form[i].0.len() != form[j].0.len() || form[i].0[0] != form[j].0[0]);
    }
}

/// A request to the mail API: the URL to post to and the form to post.
pub struct SendEmailRequest {
    pub url: String,
    pub form: Vec<(String, String)>,
}

/// The URL to which mails are posted, for an API at `base_url`.
pub fn send_email_url(base_url: &str) -> (url: String)
    ensures
        url@ == mail_send_url(base_url@),
{
    let url = base_url.to_owned();
    url.concat("/mail/send")
}

fn form_field(name: &str, value: &str) -> (field: (String, String))
    ensures
        field.0@ == name@,
        field.1@ == value@,
{
    (name.to_owned(), value.to_owned())
}

/// The form that asks the mail API to send `html` under `subject` from `from` to `to`.
pub fn email_form(
    api_user: &str,
    api_key: &str,
    from: &str,
    to: &str,
    subject: &str,
    html: &str,
) -> (form: Vec<(String, String)>)
    ensures
        form_view(form@) == email_form_spec(api_user@, api_key@, from@, to@, subject@, html@),
{
    let mut form: Vec<(String, String)> = Vec::new();
    form.push(form_field("apiUser", api_user));
    form.push(form_field("apiKey", api_key));
    form.push(form_field("from", from));
    form.push(form_field("to", to));
    form.push(form_field("subject", subject));
    form.push(form_field("html", html));
    assert(form_view(form@) =~= email_form_spec(api_user@, api_key@, from@, to@, subject@, html@));
    form
}

impl EmailClient {
    /// A client that sends as `sender` through the API at `base_url`, with the given
    /// credentials (the key is sealed as a secret); `timeout` bounds each request.
    pub fn new(
        base_url: String,
        sender: SubscriberEmail,
        api_user: String,
        api_key: String,
        timeout: Duration,
    ) -> (client: EmailClient)
        ensures
            client@ == (EmailClientView {
                sender: sender@,
                base_url: base_url@,
                api_user: api_user@,
                api_key: api_key@,
                timeout: timeout,
            }),
    {
        let api_key = ApiKey::seal(api_key);
        EmailClient { sender, base_url, api_user, api_key, timeout }
    }

    /// How long one request may take.
    pub fn timeout(&self) -> (t: Duration)
        ensures
            t == self@.timeout,
    {
        self.timeout
    }

    /// The request that sends `html_content` under `subject` to `recipient`.
    /// The plain-text body is not part of the request.
    pub fn send_email_request(
        &self,
        recipient: &SubscriberEmail,
        subject: &str,
        html_content: &str,
        _text_content: &str,
    ) -> (req: SendEmailRequest)
        ensures
            req.url@ == mail_send_url(self@.base_url),
            form_view(req.form@) == email_form_spec(
                self@.api_user,
                self@.api_key,
                self@.sender,
                recipient@,
                subject@,
                html_content@,
            ),
    {
        let url = send_email_url(self.base_url.as_str());
        let form = email_form(
            self.api_user.as_str(),
            self.api_key.expose(),
            self.sender.as_ref().as_str(),
            recipient.as_ref().as_str(),
            subject,
            html_content,
        );
        SendEmailRequest { url, form }
    }
}

} // verus!
