use vstd::prelude::*;
use vstd::string::*;

verus! {

/// The page before the flash messages.
pub open spec fn login_page_head() -> Seq<char> {
    "\n<!DOCTYPE html>\n<html lang=\"en\">\n<head>\n    <meta http-equiv=\"content-type\" content=\"text/html\" charset=\"UTF-8\">\n    <title>Login</title>\n</head>\n<body>\n    "@
}

/// The page after the flash messages: the login form.
pub open spec fn login_page_tail() -> Seq<char> {
    "\n    <form action=\"/login\" method=\"post\">\n        <label>Username\n            <input type=\"text\" placeholder=\"Enter Username\" name=\"username\">\n        </label>\n        <label>Password\n            <input type=\"password\" placeholder=\"Enter Password\" name=\"password\">\n        </label>\n\n        <button type=\"submit\">Login</button>\n    </form>\n</body>\n</html>\n        "@
}

/// One flash message as HTML, inserted as it is.
pub open spec fn flash_message_html(message: Seq<char>) -> Seq<char> {
    "<p><i>"@ + message + "</i></p>"@
}

/// The flash messages as HTML, one per line.
pub open spec fn flash_messages_html(messages: Seq<Seq<char>>) -> Seq<char>
    decreases messages.len(),
{
    if messages.len() == 0 {
        Seq::empty()
    } else if messages.len() == 1 {
        flash_message_html(messages[0])
    } else {
        flash_messages_html(messages.drop_last()) + "\n"@ + flash_message_html(messages.last())
    }
}

/// The login page that shows these flash messages above the form.
pub open spec fn login_page(messages: Seq<Seq<char>>) -> Seq<char> {
    login_page_head() + flash_messages_html(messages) + login_page_tail()
}

/// The texts of the flash messages.
pub open spec fn message_texts(messages: Seq<String>) -> Seq<Seq<char>> {
    messages.map_values(|m: String| m@)
}

/// `part` stands in `text` from position `at` on.
pub open spec fn occurs_at(text: Seq<char>, part: Seq<char>, at: int) -> bool {
    &&& 0 <= at
    &&& at + part.len() <= text.len()
    &&& text.subrange(at, at + part.len()) == part
}

/// The page holds, whatever the flash messages, a form that posts to
/// `/login` and, inside it and in this order, a text input named `username`
/// and a password input named `password`: the two fields of the login form
/// data.
pub open spec fn posts_credentials_to_login(page: Seq<char>) -> bool {
    exists|a: int, b: int, c: int, d: int|
        {
            &&& occurs_at(page, "<form action=\"/login\" method=\"post\">"@, a)
            &&& occurs_at(page, "<input type=\"text\" placeholder=\"Enter Username\" name=\"username\">"@, b)
            &&& occurs_at(page, "<input type=\"password\" placeholder=\"Enter Password\" name=\"password\">"@, c)
            &&& occurs_at(page, "</form>"@, d)
            &&& a < b < c < d
        }
}

proof fn lemma_occurs_after_prefix(prefix: Seq<char>, rest: Seq<char>, part: Seq<char>, at: int)
    requires
        occurs_at(rest, part, at),
    ensures
        occurs_at(prefix + rest, part, prefix.len() + at),
{
    assert((prefix + rest).subrange(prefix.len() + at, prefix.len() + at + part.len()) =~= rest.subrange(
        at,
        at + part.len(),
    ));
}

/// Whatever flash messages it shows, the login page lets a visitor post a
/// username and a password to `/login`, under the field names that the login
/// form data reads.
pub proof fn lemma_login_page_posts_credentials(messages: Seq<Seq<char>>)
    ensures
        posts_credentials_to_login(login_page(messages)),
{
    let tail = login_page_tail();
    let form = "<form action=\"/login\" method=\"post\">"@;
    let user = "<input type=\"text\" placeholder=\"Enter Username\" name=\"username\">"@;
    let pass = "<input type=\"password\" placeholder=\"Enter Password\" name=\"password\">"@;
    let close = "</form>"@;
    reveal_strlit("\n    <form action=\"/login\" method=\"post\">\n        <label>Username\n            <input type=\"text\" placeholder=\"Enter Username\" name=\"username\">\n        </label>\n        <label>Password\n            <input type=\"password\" placeholder=\"Enter Password\" name=\"password\">\n        </label>\n\n        <button type=\"submit\">Login</button>\n    </form>\n</body>\n</html>\n        ");
    reveal_strlit("<form action=\"/login\" method=\"post\">");
    reveal_strlit("<input type=\"text\" placeholder=\"Enter Username\" name=\"username\">");
    reveal_strlit("<input type=\"password\" placeholder=\"Enter Password\" name=\"password\">");
    reveal_strlit("</form>");
    assert(tail.subrange(5, 5 + form.len() as int) =~= form);
    assert(tail.subrange(78, 78 + user.len() as int) =~= user);
    assert(tail.subrange(196, 196 + pass.len() as int) =~= pass);
    assert(tail.subrange(332, 332 + close.len() as int) =~= close);
    let prefix = login_page_head() + flash_messages_html(messages);
    assert(login_page(messages) == prefix + tail);
    lemma_occurs_after_prefix(prefix, tail, form, 5);
    lemma_occurs_after_prefix(prefix, tail, user, 78);
    lemma_occurs_after_prefix(prefix, tail, pass, 196);
    lemma_occurs_after_prefix(prefix, tail, close, 332);
    let n = prefix.len() as int;
    assert(occurs_at(login_page(messages), form, n + 5));
    assert(occurs_at(login_page(messages), user, n + 78));
    assert(occurs_at(login_page(messages), pass, n + 196));
    assert(occurs_at(login_page(messages), close, n + 332));
}

/// The HTML of the login page, with the incoming flash messages above the form.
pub fn login_form(flash_messages: &Vec<String>) -> (page: String)
    ensures
        page@ == login_page(message_texts(flash_messages@)),
        posts_credentials_to_login(page@),
{
    proof {
        lemma_login_page_posts_credentials(message_texts(flash_messages@));
    }
    let ghost texts = message_texts(flash_messages@);
    let mut messages_html = String::new();
    let mut i: usize = 0;
    while i < flash_messages.len()
        invariant
            i <= flash_messages.len(),
            texts == message_texts(flash_messages@),
            messages_html@ == flash_messages_html(texts.take(i as int)),
        decreases flash_messages.len() - i,
    {
        assert(texts.take(i + 1).drop_last() =~= texts.take(i as int));
        if i != 0 {
            messages_html.append("\n");
        }
        messages_html.append("<p><i>");
        messages_html.append(flash_messages[i].as_str());
        messages_html.append("</i></p>");
        i = i + 1;
    }
    assert(texts.take(flash_messages.len() as int) =~= texts);
    let mut page = String::from_str("\n<!DOCTYPE html>\n<html lang=\"en\">\n<head>\n    <meta http-equiv=\"content-type\" content=\"text/html\" charset=\"UTF-8\">\n    <title>Login</title>\n</head>\n<body>\n    ");
    page.append(messages_html.as_str());
    page.append("\n    <form action=\"/login\" method=\"post\">\n        <label>Username\n            <input type=\"text\" placeholder=\"Enter Username\" name=\"username\">\n        </label>\n        <label>Password\n            <input type=\"password\" placeholder=\"Enter Password\" name=\"password\">\n        </label>\n\n        <button type=\"submit\">Login</button>\n    </form>\n</body>\n</html>\n        ");
    page
}

} // verus!
