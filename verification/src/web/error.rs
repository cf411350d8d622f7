use vstd::prelude::*;

verus! {

/// The HTTP status of a failed request.
#[derive(Debug, Clone, Copy, PartialEq, Eq, Structural)]
pub enum HttpStatus {
    BadRequest,
    NotFound,
    InternalServerError,
}

impl HttpStatus {
    /// The numeric status code.
    pub fn code(&self) -> (c: u16)
        ensures
            c == spec_status_code(*self),
    {
        match self {
            HttpStatus::BadRequest => 400,
            HttpStatus::NotFound => 404,
            HttpStatus::InternalServerError => 500,
        }
    }
}

/// The numeric code of each status.
pub open spec fn spec_status_code(s: HttpStatus) -> u16 {
    match s {
        HttpStatus::BadRequest => 400,
        HttpStatus::NotFound => 404,
        HttpStatus::InternalServerError => 500,
    }
}

/// The message shown for every internal error.
pub open spec fn internal_message() -> Seq<char> {
    "Die Anfrage konnte nicht verarbeitet werden."@
}

/// A failed web request: its status and the message shown to the user.
#[derive(Debug)]
pub struct AppError {
    status: HttpStatus,
    message: String,
}

impl View for AppError {
    type V = (HttpStatus, Seq<char>);

    closed spec fn view(&self) -> (HttpStatus, Seq<char>) {
        (self.status, self.message@)
    }
}

/// The heading of the error page for a status.
pub open spec fn spec_heading(s: HttpStatus) -> Seq<char> {
    match s {
        HttpStatus::BadRequest => "Ungültige Eingabe"@,
        HttpStatus::NotFound => "Nicht gefunden"@,
        HttpStatus::InternalServerError => "Interner Fehler"@,
    }
}

/// Where the error page leads back to, and the text of that link.
pub open spec fn spec_back_link(s: HttpStatus) -> (Seq<char>, Seq<char>) {
    match s {
        HttpStatus::BadRequest => ("/battery-types/new"@, "Zurück zum Formular"@),
        HttpStatus::NotFound => ("/battery-types"@, "Zurück zu den Batterietypen"@),
        HttpStatus::InternalServerError => ("/"@, "Zurück zur Startseite"@),
    }
}

pub const PAGE_OPEN: &'static str = "
            <!doctype html>
            <html lang=\"de\">
                <head>
                    <meta charset=\"utf-8\">
                    <meta name=\"viewport\" content=\"width=device-width, initial-scale=1\">
                    <title>";

pub const PAGE_AFTER_TITLE: &'static str = " – Open battery forge</title>
                </head>
                <body>
                    <main>
                        <h1>";

pub const PAGE_AFTER_HEADING: &'static str = "</h1>
                        <p>";

pub const PAGE_AFTER_MESSAGE: &'static str = "</p>
                        <p>
                            <a href=\"";

pub const PAGE_AFTER_LINK: &'static str = "\">";

pub const PAGE_CLOSE: &'static str = "</a>
                        </p>
                    </main>
                </body>
            </html>
            ";

/// The error page for a status and a message.
pub open spec fn spec_error_page(s: HttpStatus, message: Seq<char>) -> Seq<char> {
    let heading = spec_heading(s);
    let (link, text) = spec_back_link(s);
    PAGE_OPEN@ + heading + PAGE_AFTER_TITLE@ + heading + PAGE_AFTER_HEADING@ + message
        + PAGE_AFTER_MESSAGE@ + link + PAGE_AFTER_LINK@ + text + PAGE_CLOSE@
}

impl AppError {
    /// An error that the server caused; the user sees a general message.
    pub fn internal() -> (e: Self)
        ensures
            e@ == (HttpStatus::InternalServerError, internal_message()),
    {
        Self {
            status: HttpStatus::InternalServerError,
            message: String::from_str("Die Anfrage konnte nicht verarbeitet werden."),
        }
    }

    /// A request with invalid input.
    pub fn bad_request(message: &str) -> (e: Self)
        ensures
            e@ == (HttpStatus::BadRequest, message@),
    {
        Self { status: HttpStatus::BadRequest, message: message.to_owned() }
    }

    /// A request for something that does not exist.
    pub fn not_found(message: &str) -> (e: Self)
        ensures
            e@ == (HttpStatus::NotFound, message@),
    {
        Self { status: HttpStatus::NotFound, message: message.to_owned() }
    }

    pub fn status(&self) -> (s: HttpStatus)
        ensures
            s == self@.0,
    {
        self.status
    }

    pub fn message(&self) -> (m: &str)
        ensures
            m@ == self@.1,
    {
        self.message.as_str()
    }

    /// The heading of the error page.
    pub fn heading(&self) -> (h: &'static str)
        ensures
            h@ == spec_heading(self@.0),
    {
        match self.status {
            HttpStatus::BadRequest => "Ungültige Eingabe",
            HttpStatus::NotFound => "Nicht gefunden",
            HttpStatus::InternalServerError => "Interner Fehler",
        }
    }

    /// Where the error page leads back to, and the text of that link.
    pub fn back_link(&self) -> (l: (&'static str, &'static str))
        ensures
            (l.0@, l.1@) == spec_back_link(self@.0),
    {
        match self.status {
            HttpStatus::BadRequest => ("/battery-types/new", "Zurück zum Formular"),
            HttpStatus::NotFound => ("/battery-types", "Zurück zu den Batterietypen"),
            HttpStatus::InternalServerError => ("/", "Zurück zur Startseite"),
        }
    }

    /// The HTML page that answers the failed request.
    pub fn page_html(&self) -> (html: String)
        ensures
            html@ == spec_error_page(self@.0, self@.1),
    {
        let heading = self.heading();
        let (link, text) = self.back_link();
        let mut html = String::from_str(PAGE_OPEN);
        html.append(heading);
        html.append(PAGE_AFTER_TITLE);
        html.append(heading);
        html.append(PAGE_AFTER_HEADING);
        html.append(self.message.as_str());
        html.append(PAGE_AFTER_MESSAGE);
        html.append(link);
        html.append(PAGE_AFTER_LINK);
        html.append(text);
        html.append(PAGE_CLOSE);
        html
    }
}

} // verus!
