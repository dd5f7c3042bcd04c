//! The form to change one's password.

use vstd::prelude::*;
use crate::routes::views;
use crate::routes::{framed_lines, frame_lines, lemma_framed_lines_each_message};

verus! {

/// What the password form shows.
pub struct PasswordForm {
    /// The flash messages, each as `<p><i>{message}</i></p>` on a line.
    pub error_message: String,
}

/// The password form for these flash messages.
pub fn change_password_form(flash_messages: &Vec<String>) -> (r: PasswordForm)
    ensures
        r.error_message@ == framed_lines(views(flash_messages@), "<p><i>"@, "</i></p>\n"@),
{
    PasswordForm { error_message: frame_lines(flash_messages, "<p><i>", "</i></p>\n") }
}

/// The password form writes each flash message whole, in order, as
/// `<p><i>{message}</i></p>` followed by a line break.
pub proof fn lemma_password_form_message(messages: Seq<Seq<char>>, m: Seq<char>)
    ensures
        framed_lines(seq![m], "<p><i>"@, "</i></p>\n"@) == seq!['<', 'p', '>', '<', 'i', '>'] + m
            + seq!['<', '/', 'i', '>', '<', '/', 'p', '>', '\n'],
        framed_lines(messages.push(m), "<p><i>"@, "</i></p>\n"@) == framed_lines(
            messages,
            "<p><i>"@,
            "</i></p>\n"@,
        ) + seq!['<', 'p', '>', '<', 'i', '>'] + m + seq!['<', '/', 'i', '>', '<', '/', 'p', '>', '\n'],
{
    reveal_strlit("<p><i>");
    reveal_strlit("</i></p>\n");
    lemma_framed_lines_each_message(messages, m, "<p><i>"@, "</i></p>\n"@);
}

} // verus!
