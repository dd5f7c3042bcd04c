//! The form to publish a newsletter issue.

use vstd::prelude::*;
use crate::routes::views;
use crate::routes::{framed_lines, frame_lines, lemma_framed_lines_each_message};
use crate::idempotency::{IdempotencyKey, is_uuid_v4_text, new_idempotency_key};

verus! {

/// What the newsletter form shows.
pub struct NewsletterForm {
    /// The flash messages, one per line.
    pub error_message: String,
    /// A fresh key that makes a submission of this form idempotent.
    pub idempotency_key: String,
}

/// The newsletter form for these flash messages, with a fresh idempotency
/// key: the text of an `IdempotencyKey`, which only `Uuid::new_v4` makes.
pub fn publish_newsletter_form(flash_messages: &Vec<String>) -> (r: NewsletterForm)
    ensures
        r.error_message@ == framed_lines(views(flash_messages@), ""@, "\n"@),
        is_uuid_v4_text(r.idempotency_key@),
        exists|k: IdempotencyKey| #[trigger] k.text() == r.idempotency_key@,
{
    let error_message = frame_lines(flash_messages, "", "\n");
    let key = new_idempotency_key();
    let ghost drawn = key;
    let idempotency_key = key.into_string();
    assert(drawn.text() == idempotency_key@);
    NewsletterForm { error_message, idempotency_key }
}

/// The newsletter form writes each flash message whole, in order, each
/// followed by a line break.
pub proof fn lemma_newsletter_form_message(messages: Seq<Seq<char>>, m: Seq<char>)
    ensures
        framed_lines(seq![m], ""@, "\n"@) == m.push('\n'),
        framed_lines(messages.push(m), ""@, "\n"@) == framed_lines(messages, ""@, "\n"@)
            + m.push('\n'),
{
    reveal_strlit("");
    reveal_strlit("\n");
    lemma_framed_lines_each_message(messages, m, ""@, "\n"@);
    assert(Seq::<char>::empty() + m + seq!['\n'] =~= m.push('\n'));
    assert(framed_lines(messages, ""@, "\n"@) + Seq::<char>::empty() + m + seq!['\n']
        =~= framed_lines(messages, ""@, "\n"@) + m.push('\n'));
}

} // verus!
