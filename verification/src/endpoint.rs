//! What is asked of the service: the path of each request, and the headers
//! that go with it.

use vstd::prelude::*;

verus! {

/// One request of the service.
pub enum Endpoint {
    /// An image, by its address at the image host.
    Proxy(String),
    /// The metadata of a gallery, by its number.
    GalleryInfo(usize),
    /// The images of a gallery, by its number.
    Images(usize),
    /// The latest galleries.
    Index,
    /// The listing view of a gallery, by its number.
    Info(usize),
    /// The combined view of a gallery, by its number.
    Integrated(usize),
    /// A page of the listing, by its number. The service is asked for it under
    /// the path of the combined view.
    List(usize),
}

/// The decimal digit for a number below ten.
pub open spec fn digit(d: nat) -> char {
    if d == 0 {
        '0'
    } else if d == 1 {
        '1'
    } else if d == 2 {
        '2'
    } else if d == 3 {
        '3'
    } else if d == 4 {
        '4'
    } else if d == 5 {
        '5'
    } else if d == 6 {
        '6'
    } else if d == 7 {
        '7'
    } else if d == 8 {
        '8'
    } else {
        '9'
    }
}

/// A number in decimal, without sign or leading zeros.
pub open spec fn decimal(n: nat) -> Seq<char>
    decreases n,
{
    if n < 10 {
        seq![digit(n)]
    } else {
        decimal(n / 10).push(digit(n % 10))
    }
}

/// The address that every path is appended to.
pub open spec fn base_url() -> Seq<char> {
    "https://doujinshiman.ga/v3/api/hitomi/"@
}

/// The name that this client gives itself.
pub open spec fn user_agent() -> Seq<char> {
    "AkiaCode/heliotrope v0.1 (https://github.com/AkiaCode)"@
}

impl Endpoint {
    /// The path of the request, below the base address.
    pub open spec fn route(&self) -> Seq<char> {
        match self {
            Endpoint::Proxy(address) => "proxy/"@ + address@,
            Endpoint::GalleryInfo(number) => "galleryinfo/"@ + decimal(*number as nat),
            Endpoint::Images(number) => "images/"@ + decimal(*number as nat),
            Endpoint::Index => "index"@,
            Endpoint::Info(number) => "info/"@ + decimal(*number as nat),
            Endpoint::Integrated(number) => "integrated/"@ + decimal(*number as nat),
            Endpoint::List(number) => "integrated/"@ + decimal(*number as nat),
        }
    }

    /// The path of the request, below the base address.
    pub fn path(&self) -> (r: String)
        ensures
            r@ == self.route(),
    {
        match self {
            Endpoint::Proxy(address) => String::from_str("proxy/").concat(address.as_str()),
            Endpoint::GalleryInfo(number) => numbered("galleryinfo/", *number),
            Endpoint::Images(number) => numbered("images/", *number),
            Endpoint::Index => String::from_str("index"),
            Endpoint::Info(number) => numbered("info/", *number),
            Endpoint::Integrated(number) => numbered("integrated/", *number),
            Endpoint::List(number) => numbered("integrated/", *number),
        }
    }
}

/// The text of one decimal digit.
fn digit_text(d: usize) -> (r: &'static str)
    requires
        d < 10,
    ensures
        r@ == seq![digit(d as nat)],
{
    proof {
        reveal_strlit("0");
        reveal_strlit("1");
        reveal_strlit("2");
        reveal_strlit("3");
        reveal_strlit("4");
        reveal_strlit("5");
        reveal_strlit("6");
        reveal_strlit("7");
        reveal_strlit("8");
        reveal_strlit("9");
    }
    let r = if d == 0 {
        "0"
    } else if d == 1 {
        "1"
    } else if d == 2 {
        "2"
    } else if d == 3 {
        "3"
    } else if d == 4 {
        "4"
    } else if d == 5 {
        "5"
    } else if d == 6 {
        "6"
    } else if d == 7 {
        "7"
    } else if d == 8 {
        "8"
    } else {
        "9"
    };
    assert(r@ =~= seq![digit(d as nat)]);
    r
}

/// A number in decimal.
pub fn decimal_text(n: usize) -> (r: String)
    ensures
        r@ == decimal(n as nat),
    decreases n,
{
    if n < 10 {
        String::from_str(digit_text(n))
    } else {
        let mut text = decimal_text(n / 10);
        text.append(digit_text(n % 10));
        assert(text@ =~= decimal(n as nat));
        text
    }
}

/// A prefix followed by a number in decimal.
fn numbered(prefix: &str, number: usize) -> (r: String)
    ensures
        r@ == prefix@ + decimal(number as nat),
{
    let digits = decimal_text(number);
    String::from_str(prefix).concat(digits.as_str())
}

/// What is sent for one request: a single GET of `url` with these two headers.
pub struct Request {
    pub url: String,
    pub user_agent: String,
    pub authorization: String,
}

/// The request for an endpoint. The token goes into the authorization header
/// as it is, with nothing before it.
pub fn request(endpoint: &Endpoint, token: &str) -> (r: Request)
    ensures
        r.url@ == base_url() + endpoint.route(),
        r.user_agent@ == user_agent(),
        r.authorization@ == token@,
{
    let path = endpoint.path();
    Request {
        url: String::from_str("https://doujinshiman.ga/v3/api/hitomi/").concat(path.as_str()),
        user_agent: String::from_str("AkiaCode/heliotrope v0.1 (https://github.com/AkiaCode)"),
        authorization: String::from_str(token),
    }
}

} // verus!
