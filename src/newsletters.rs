//! Publishing a newsletter issue to the confirmed subscribers.
use crate::subscriber_email::{email_error, email_syntax_ok, SubscriberEmail};
use crate::subscriptions::SubscriptionStatus;
use vstd::prelude::*;

verus! {

/// A newsletter issue as submitted by the administrator.
pub struct BodyData {
    pub title: String,
    pub html_content: String,
    pub text_content: String,
}

/// A subscription as read from the store.
pub struct StoredSubscription {
    pub email: String,
    pub status: SubscriptionStatus,
}

/// A confirmed subscriber whose stored address is still valid.
#[derive(Debug)]
pub struct ConfirmedSubscriber {
    pub email: SubscriberEmail,
}

/// The addresses of the confirmed subscriptions among `rows`, in order.
pub open spec fn confirmed_emails(rows: Seq<StoredSubscription>) -> Seq<Seq<char>>
    decreases rows.len(),
{
    if rows.len() == 0 {
        Seq::empty()
    } else {
        let prev = confirmed_emails(rows.drop_last());
        if rows.last().status == SubscriptionStatus::Confirmed {
            prev.push(rows.last().email@)
        } else {
            prev
        }
    }
}

/// The addresses among `emails` that are valid, in order: those a newsletter
/// is sent to.
pub open spec fn deliveries(emails: Seq<Seq<char>>) -> Seq<Seq<char>>
    decreases emails.len(),
{
    if emails.len() == 0 {
        Seq::empty()
    } else {
        let prev = deliveries(emails.drop_last());
        if email_syntax_ok(emails.last()) {
            prev.push(emails.last())
        } else {
            prev
        }
    }
}

/// `entry` is what re-validating the stored address `email` gives.
pub open spec fn revalidated(entry: Result<ConfirmedSubscriber, String>, email: Seq<char>) -> bool {
    match entry {
        Ok(s) => email_syntax_ok(email) && s.email@ == email,
        Err(m) => !email_syntax_ok(email) && m@ == email_error(email),
    }
}

/// The confirmed subscriptions among `rows`, each with its address validated
/// again: an address that no longer validates gives an error entry in its
/// place rather than failing the whole list.
pub fn confirmed_subscribers(rows: &Vec<StoredSubscription>) -> (r: Vec<Result<ConfirmedSubscriber, String>>)
    ensures
        r@.len() == confirmed_emails(rows@).len(),
        forall|k: int| 0 <= k < r@.len() ==> revalidated(#[trigger] r@[k], confirmed_emails(rows@)[k]),
{
    let mut out: Vec<Result<ConfirmedSubscriber, String>> = Vec::new();
    let mut i: usize = 0;
    while i < rows.len()
        invariant
            i <= rows@.len(),
            out@.len() == confirmed_emails(rows@.subrange(0, i as int)).len(),
            forall|k: int|
                0 <= k < out@.len() ==> revalidated(
                    #[trigger] out@[k],
                    confirmed_emails(rows@.subrange(0, i as int))[k],
                ),
        decreases rows@.len() - i,
    {
        let row = &rows[i];
        assert(rows@.subrange(0, i as int + 1).drop_last() =~= rows@.subrange(0, i as int));
        assert(rows@.subrange(0, i as int + 1).last() == rows@[i as int]);
        if row.status == SubscriptionStatus::Confirmed {
            let entry = match SubscriberEmail::parse(row.email.clone()) {
                Ok(email) => Ok(ConfirmedSubscriber { email }),
                Err(e) => Err(e),
            };
            out.push(entry);
        }
        i = i + 1;
    }
    assert(rows@.subrange(0, rows@.len() as int) =~= rows@);
    out
}

/// What to do next while publishing.
#[derive(Debug, Clone, Copy, PartialEq, Eq, Structural)]
pub enum PublishAction {
    /// Send the issue to the subscriber at this position.
    Send(usize),
    /// Log and pass over the entry at this position: its address is invalid.
    Skip(usize),
    /// The send to the subscriber at this position failed: stop publishing
    /// and report the failure. Delivery failures are not passed over.
    Abort(usize),
    /// Every entry has been handled.
    Done,
}

/// The action for the entry at `pos`, once those before it were handled.
pub open spec fn action_at(subscribers: Seq<Result<ConfirmedSubscriber, String>>, pos: nat) -> PublishAction {
    if pos >= subscribers.len() {
        PublishAction::Done
    } else if subscribers[pos as int] is Ok {
        PublishAction::Send(pos as usize)
    } else {
        PublishAction::Skip(pos as usize)
    }
}

/// The action for the entry at `pos`: the first one, or the one after a skip.
pub fn next_action(subscribers: &Vec<Result<ConfirmedSubscriber, String>>, pos: usize) -> (r: PublishAction)
    requires
        pos <= subscribers@.len(),
    ensures
        r == action_at(subscribers@, pos as nat),
{
    if pos == subscribers.len() {
        PublishAction::Done
    } else if subscribers[pos].is_ok() {
        PublishAction::Send(pos)
    } else {
        PublishAction::Skip(pos)
    }
}

/// The action after the send to the subscriber at `pos`: a failed send ends
/// the publication, a delivered one moves on to the next entry.
pub fn after_send(subscribers: &Vec<Result<ConfirmedSubscriber, String>>, pos: usize, delivered: bool) -> (r: PublishAction)
    requires
        pos < subscribers@.len(),
    ensures
        !delivered ==> r == PublishAction::Abort(pos),
        delivered ==> r == action_at(subscribers@, pos as nat + 1),
{
    if !delivered {
        PublishAction::Abort(pos)
    } else {
        let n = subscribers.len();
        assert(pos + 1 <= n);
        next_action(subscribers, pos + 1)
    }
}

/// The address an entry is sent to, if any.
pub open spec fn entry_send(entry: Result<ConfirmedSubscriber, String>) -> Seq<Seq<char>> {
    match entry {
        Ok(s) => seq![s.email@],
        Err(_) => Seq::empty(),
    }
}

/// The addresses a publication at `pos` still sends to when every send is
/// delivered: following `action_at`, one per `Send`, in order.
pub open spec fn remaining_sends(subscribers: Seq<Result<ConfirmedSubscriber, String>>, pos: nat) -> Seq<Seq<char>>
    decreases subscribers.len() - pos,
{
    if pos >= subscribers.len() {
        Seq::empty()
    } else {
        entry_send(subscribers[pos as int]) + remaining_sends(subscribers, pos + 1)
    }
}

/// The addresses of the entries that are `Ok`, in order.
pub open spec fn sent_emails(subscribers: Seq<Result<ConfirmedSubscriber, String>>) -> Seq<Seq<char>>
    decreases subscribers.len(),
{
    if subscribers.len() == 0 {
        Seq::empty()
    } else {
        sent_emails(subscribers.drop_last()) + entry_send(subscribers.last())
    }
}

proof fn lemma_remaining_sends_split(s: Seq<Result<ConfirmedSubscriber, String>>, p: nat)
    requires
        s.len() > 0,
        p < s.len(),
    ensures
        remaining_sends(s, p) == remaining_sends(s.drop_last(), p) + entry_send(s.last()),
    decreases s.len() - p,
{
    if p == s.len() - 1 {
        assert(remaining_sends(s, p + 1) == Seq::<Seq<char>>::empty());
        assert(remaining_sends(s.drop_last(), p) == Seq::<Seq<char>>::empty());
        assert(remaining_sends(s, p) =~= remaining_sends(s.drop_last(), p) + entry_send(s.last()));
    } else {
        lemma_remaining_sends_split(s, p + 1);
        assert(s.drop_last()[p as int] == s[p as int]);
        assert(remaining_sends(s, p) =~= remaining_sends(s.drop_last(), p) + entry_send(s.last()));
    }
}

/// Following the actions from the first entry sends to the `Ok` entries.
proof fn lemma_remaining_sends_all(s: Seq<Result<ConfirmedSubscriber, String>>)
    ensures
        remaining_sends(s, 0) == sent_emails(s),
    decreases s.len(),
{
    if s.len() > 0 {
        lemma_remaining_sends_split(s, 0);
        lemma_remaining_sends_all(s.drop_last());
    }
}

/// Publishing to what `confirmed_subscribers` returned, with every send
/// delivered, sends to exactly the valid addresses of the confirmed
/// subscriptions, once each, in store order.
pub proof fn lemma_publication_sends_deliveries(
    subscribers: Seq<Result<ConfirmedSubscriber, String>>,
    emails: Seq<Seq<char>>,
)
    requires
        subscribers.len() == emails.len(),
        forall|k: int| 0 <= k < subscribers.len() ==> revalidated(#[trigger] subscribers[k], emails[k]),
    ensures
        remaining_sends(subscribers, 0) == deliveries(emails),
{
    lemma_remaining_sends_all(subscribers);
    lemma_sent_emails_are_deliveries(subscribers, emails);
}

proof fn lemma_sent_emails_are_deliveries(
    subscribers: Seq<Result<ConfirmedSubscriber, String>>,
    emails: Seq<Seq<char>>,
)
    requires
        subscribers.len() == emails.len(),
        forall|k: int| 0 <= k < subscribers.len() ==> revalidated(#[trigger] subscribers[k], emails[k]),
    ensures
        sent_emails(subscribers) == deliveries(emails),
    decreases subscribers.len(),
{
    if subscribers.len() > 0 {
        let n = subscribers.len() - 1;
        assert forall|k: int| 0 <= k < subscribers.drop_last().len() implies revalidated(
            #[trigger] subscribers.drop_last()[k],
            emails.drop_last()[k],
        ) by {
            assert(subscribers.drop_last()[k] == subscribers[k]);
            assert(emails.drop_last()[k] == emails[k]);
        }
        lemma_sent_emails_are_deliveries(subscribers.drop_last(), emails.drop_last());
        assert(revalidated(subscribers[n], emails[n]));
        let prev = deliveries(emails.drop_last());
        if email_syntax_ok(emails.last()) {
            assert(sent_emails(subscribers) =~= prev.push(emails.last()));
        } else {
            assert(sent_emails(subscribers) =~= prev);
        }
    }
}

/// The error that ends a publication whose send to `email` failed.
pub open spec fn send_failure_text(email: Seq<char>) -> Seq<char> {
    "Failed to send newsletter issue to "@ + email
}

/// The error that ends a publication whose send to `email` failed.
pub fn send_failure_message(email: &SubscriberEmail) -> (r: String)
    ensures
        r@ == send_failure_text(email@),
{
    let mut m = String::from_str("Failed to send newsletter issue to ");
    m.append(email.as_str());
    m
}

/// The warning logged for a subscriber passed over.
pub fn skip_warning() -> (r: String)
    ensures
        r@ == "Skipping a confirmed subscriber. Their stored contact details are invalid"@,
{
    String::from_str("Skipping a confirmed subscriber. Their stored contact details are invalid")
}

/// The notice shown once the issue went out.
pub fn published_message() -> (r: String)
    ensures
        r@ == "The newsletter issue has been published!"@,
{
    String::from_str("The newsletter issue has been published!")
}

/// With no confirmed subscription in the store, no address is delivered to.
pub proof fn lemma_no_confirmed_no_deliveries(rows: Seq<StoredSubscription>)
    requires
        forall|i: int| 0 <= i < rows.len() ==> (#[trigger] rows[i]).status != SubscriptionStatus::Confirmed,
    ensures
        deliveries(confirmed_emails(rows)).len() == 0,
    decreases rows.len(),
{
    if rows.len() > 0 {
        assert forall|i: int| 0 <= i < rows.drop_last().len() implies (#[trigger] rows.drop_last()[i]).status
            != SubscriptionStatus::Confirmed by {
            assert(rows.drop_last()[i] == rows[i]);
        }
        lemma_no_confirmed_no_deliveries(rows.drop_last());
    }
}

/// Every address delivered to is the address of a confirmed subscription,
/// and valid.
pub proof fn lemma_deliveries_are_confirmed(rows: Seq<StoredSubscription>, k: int)
    requires
        0 <= k < deliveries(confirmed_emails(rows)).len(),
    ensures
        email_syntax_ok(deliveries(confirmed_emails(rows))[k]),
        exists|i: int|
            0 <= i < rows.len() && (#[trigger] rows[i]).status == SubscriptionStatus::Confirmed
                && rows[i].email@ == deliveries(confirmed_emails(rows))[k],
    decreases rows.len(),
{
    lemma_deliveries_valid_members(confirmed_emails(rows), k);
    let j = choose|j: int|
        0 <= j < confirmed_emails(rows).len() && confirmed_emails(rows)[j] == deliveries(
            confirmed_emails(rows),
        )[k];
    lemma_confirmed_emails_members(rows, j);
}

proof fn lemma_deliveries_valid_members(emails: Seq<Seq<char>>, k: int)
    requires
        0 <= k < deliveries(emails).len(),
    ensures
        email_syntax_ok(deliveries(emails)[k]),
        exists|j: int| 0 <= j < emails.len() && emails[j] == deliveries(emails)[k],
    decreases emails.len(),
{
    let prev = deliveries(emails.drop_last());
    if k < prev.len() {
        lemma_deliveries_valid_members(emails.drop_last(), k);
        let j = choose|j: int| 0 <= j < emails.drop_last().len() && emails.drop_last()[j] == prev[k];
        assert(emails[j] == prev[k]);
    } else {
        assert(emails[emails.len() - 1] == deliveries(emails)[k]);
    }
}

proof fn lemma_confirmed_emails_members(rows: Seq<StoredSubscription>, j: int)
    requires
        0 <= j < confirmed_emails(rows).len(),
    ensures
        exists|i: int|
            0 <= i < rows.len() && (#[trigger] rows[i]).status == SubscriptionStatus::Confirmed
                && rows[i].email@ == confirmed_emails(rows)[j],
    decreases rows.len(),
{
    let prev = confirmed_emails(rows.drop_last());
    if j < prev.len() {
        lemma_confirmed_emails_members(rows.drop_last(), j);
        let i = choose|i: int|
            0 <= i < rows.drop_last().len() && (#[trigger] rows.drop_last()[i]).status
                == SubscriptionStatus::Confirmed && rows.drop_last()[i].email@ == prev[j];
        assert(rows[i] == rows.drop_last()[i]);
    } else {
        assert(rows[rows.len() - 1].status == SubscriptionStatus::Confirmed);
    }
}


/// The flash messages as HTML paragraphs, one line each.
pub open spec fn messages_html(messages: Seq<String>) -> Seq<char>
    decreases messages.len(),
{
    if messages.len() == 0 {
        Seq::empty()
    } else {
        messages_html(messages.drop_last()) + "<p><i>"@ + messages.last()@ + "</i></p>\n"@
    }
}

/// The page before the flash messages.
pub open spec fn form_head() -> Seq<char> {
    "<!DOCTYPE html>\n<html lang=\"en\">\n<head>\n    <meta http-equiv=\"content-type\" content=\"text/html; charset=utf-8\">\n    <title>Change Password</title>\n</head>\n<body>\n    "@
}

/// The page after the flash messages.
pub open spec fn form_tail() -> Seq<char> {
    "\n    <form action=\"/admin/newsletters\" method=\"post\">\n        <label>Subject\n            <input\n                    type=\"text\"\n                    placeholder=\"Enter Subject\"\n                    name=\"subject\"\n            />\n        </label>\n        <br>\n        <label>HTML Content\n            <br>\n            <textarea\n                    placeholder=\"Enter HTML content\"\n                    name=\"html_content\"\n                    cols=60\n                    rows=20\n            ></textarea>\n        </label>\n        <br>\n        <label>Text Content\n            <br>\n            <textarea\n                    placeholder=\"Enter Text content\"\n                    name=\"text_content\"\n                    cols=60\n                    rows=20\n            ></textarea>\n        </label>\n        <br>\n        <button type=\"submit\">Publish</button>\n    </form>\n    <p><a href=\"/admin/dashboard\">&lt;- Back</a></p>\n</body>\n</html>"@
}

/// The form for writing a newsletter issue, with the pending flash messages
/// shown above it.
pub fn newsletter_form_page(messages: &Vec<String>) -> (r: String)
    ensures
        r@ == form_head() + messages_html(messages@) + form_tail(),
{
    let mut page = String::from_str(
        "<!DOCTYPE html>\n<html lang=\"en\">\n<head>\n    <meta http-equiv=\"content-type\" content=\"text/html; charset=utf-8\">\n    <title>Change Password</title>\n</head>\n<body>\n    ",
    );
    let mut i: usize = 0;
    while i < messages.len()
        invariant
            i <= messages@.len(),
            page@ == form_head() + messages_html(messages@.subrange(0, i as int)),
        decreases messages@.len() - i,
    {
        assert(messages@.subrange(0, i as int + 1).drop_last() =~= messages@.subrange(0, i as int));
        page.append("<p><i>");
        page.append(messages[i].as_str());
        page.append("</i></p>\n");
        proof {
            let before = form_head() + messages_html(messages@.subrange(0, i as int));
            assert(page@ =~= before + "<p><i>"@ + messages@[i as int]@ + "</i></p>\n"@);
        }
        i = i + 1;
    }
    assert(messages@.subrange(0, messages@.len() as int) =~= messages@);
    page.append(
        "\n    <form action=\"/admin/newsletters\" method=\"post\">\n        <label>Subject\n            <input\n                    type=\"text\"\n                    placeholder=\"Enter Subject\"\n                    name=\"subject\"\n            />\n        </label>\n        <br>\n        <label>HTML Content\n            <br>\n            <textarea\n                    placeholder=\"Enter HTML content\"\n                    name=\"html_content\"\n                    cols=60\n                    rows=20\n            ></textarea>\n        </label>\n        <br>\n        <label>Text Content\n            <br>\n            <textarea\n                    placeholder=\"Enter Text content\"\n                    name=\"text_content\"\n                    cols=60\n                    rows=20\n            ></textarea>\n        </label>\n        <br>\n        <button type=\"submit\">Publish</button>\n    </form>\n    <p><a href=\"/admin/dashboard\">&lt;- Back</a></p>\n</body>\n</html>",
    );
    page
}

} // verus!
