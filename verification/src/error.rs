//! The errors of the bus, and the short type names they carry.
use vstd::prelude::*;
use vstd::string::*;
use crate::bus::Link;
use regex::Regex;

verus! {

/// Whether `regex::Regex::new` accepts `pattern`.
pub uninterp spec fn regex_compiles(pattern: Seq<char>) -> bool;

/// What `regex::Regex::replace_all` returns for the regex compiled from `pattern`, applied to
/// `haystack` with the replacement `rep`.
pub uninterp spec fn regex_replace_all(
    pattern: Seq<char>,
    haystack: Seq<char>,
    rep: Seq<char>,
) -> Seq<char>;

/// Compiles `pattern` with `regex::Regex::new` and, where that succeeds, replaces every match
/// in `haystack` with `regex::Regex::replace_all`.
///
/// The contract claims that compilation depends on the pattern alone, and that the replaced
/// text depends on the pattern, the haystack and the replacement alone. What the text is, is
/// left to the regex engine.
#[verifier::external_body]
fn replace_all(pattern: &str, haystack: &str, rep: &str) -> (out: Option<String>)
    ensures
        out is Some <==> regex_compiles(pattern@),
        out matches Some(text) ==> text@ == regex_replace_all(pattern@, haystack@, rep@),
{
    match Regex::new(pattern) {
        Ok(regex) => Some(regex.replace_all(haystack, rep).into_owned()),
        Err(_) => None,
    }
}

/// The pattern of one module path segment with its separator, such as `channel::`: a
/// lower-case letter, one or more letters, digits or underscores, and two colons.
pub open spec fn path_segment() -> Seq<char> {
    "[a-z][A-Za-z0-9_]+::"@
}

/// A type name without the module paths in it: every match of [`path_segment`] is removed.
/// A name is kept whole if the regex engine does not accept the pattern.
pub open spec fn shortened(full: Seq<char>) -> Seq<char> {
    if regex_compiles(path_segment()) {
        regex_replace_all(path_segment(), full, ""@)
    } else {
        full
    }
}

/// Removes the module paths from a type name, so that `app::bus::Msg<app::Inner>` reads
/// `Msg<Inner>`.
pub fn short_name(full: &str) -> (out: String)
    ensures
        out@ == shortened(full@),
{
    match replace_all("[a-z][A-Za-z0-9_]+::", full, "") {
        Some(text) => text,
        None => full.to_owned(),
    }
}

/// An error produced when sending over a channel of the bus.
#[derive(Debug, PartialEq)]
pub enum SendError<T> {
    /// The channel has been closed, and the value is returned.
    Return(T),
    /// The channel has been closed, but no value was returned.
    Closed,
}

/// The described endpoint was never stored on the bus.
#[derive(Debug)]
pub struct NotTakenError {
    pub bus: String,
    pub message: String,
    pub link: Link,
}

impl NotTakenError {
    /// The text of the error for the short names `bus` and `message`.
    pub open spec fn text(bus: Seq<char>, message: Seq<char>, link: Link) -> Seq<char> {
        "endpoint not taken: "@ + bus + " < "@ + message + "::"@ + link.name() + " >"@
    }

    /// Describes the endpoint `link` of `message` on `bus`, both given as full type names.
    pub fn new(bus: &str, message: &str, link: Link) -> (error: Self)
        ensures
            error.bus@ == shortened(bus@),
            error.message@ == shortened(message@),
            error.link == link,
    {
        NotTakenError { bus: short_name(bus), message: short_name(message), link }
    }

    /// Writes the error as text.
    pub fn to_string(&self) -> (out: String)
        ensures
            out@ == Self::text(self.bus@, self.message@, self.link),
    {
        let link = self.link.to_string();
        String::from_str("endpoint not taken: ").concat(self.bus.as_str()).concat(" < ").concat(
            self.message.as_str(),
        ).concat("::").concat(link.as_str()).concat(" >")
    }
}

/// The described endpoint was already taken from the bus.
#[derive(Debug)]
pub struct LinkTakenError {
    pub bus: String,
    pub message: String,
    pub link: Link,
}

impl LinkTakenError {
    /// The text of the error for the short names `bus` and `message`.
    pub open spec fn text(bus: Seq<char>, message: Seq<char>, link: Link) -> Seq<char> {
        "link already taken: "@ + bus + " < "@ + message + "::"@ + link.name() + " >"@
    }

    /// Describes the endpoint `link` of `message` on `bus`, both given as full type names.
    pub fn new(bus: &str, message: &str, link: Link) -> (error: Self)
        ensures
            error.bus@ == shortened(bus@),
            error.message@ == shortened(message@),
            error.link == link,
    {
        LinkTakenError { bus: short_name(bus), message: short_name(message), link }
    }

    /// Writes the error as text.
    pub fn to_string(&self) -> (out: String)
        ensures
            out@ == Self::text(self.bus@, self.message@, self.link),
    {
        let link = self.link.to_string();
        String::from_str("link already taken: ").concat(self.bus.as_str()).concat(" < ").concat(
            self.message.as_str(),
        ).concat("::").concat(link.as_str()).concat(" >")
    }
}

/// The channel was already linked on the bus, but the operation needed a channel that was not.
#[derive(Debug)]
pub struct AlreadyLinkedError {
    pub bus: String,
    pub message: String,
}

impl AlreadyLinkedError {
    /// The text of the error for the short names `bus` and `message`.
    pub open spec fn text(bus: Seq<char>, message: Seq<char>) -> Seq<char> {
        "link already generated: "@ + bus + " < "@ + message + " >"@
    }

    /// Describes the channel of `message` on `bus`, both given as full type names.
    pub fn new(bus: &str, message: &str) -> (error: Self)
        ensures
            error.bus@ == shortened(bus@),
            error.message@ == shortened(message@),
    {
        AlreadyLinkedError { bus: short_name(bus), message: short_name(message) }
    }

    /// Writes the error as text.
    pub fn to_string(&self) -> (out: String)
        ensures
            out@ == Self::text(self.bus@, self.message@),
    {
        String::from_str("link already generated: ").concat(self.bus.as_str()).concat(
            " < ",
        ).concat(self.message.as_str()).concat(" >")
    }
}

/// An error produced when taking a sender or receiver from the bus.
#[derive(Debug)]
pub enum TakeChannelError {
    /// The channel was partially linked on the bus, and this endpoint was not set.
    PartialTake(NotTakenError),
    /// The channel was already linked, and the operation needed a new channel endpoint.
    AlreadyLinked(AlreadyLinkedError),
    /// The channel endpoint is handed out once, and it was already taken.
    AlreadyTaken(LinkTakenError),
}

impl TakeChannelError {
    /// The text of the error.
    pub open spec fn text(self) -> Seq<char> {
        match self {
            TakeChannelError::PartialTake(e) => "channel endpoints partially taken: "@
                + NotTakenError::text(e.bus@, e.message@, e.link),
            TakeChannelError::AlreadyLinked(e) => "channel already linked: "@
                + AlreadyLinkedError::text(e.bus@, e.message@),
            TakeChannelError::AlreadyTaken(e) => "channel already taken: "@
                + LinkTakenError::text(e.bus@, e.message@, e.link),
        }
    }

    /// The endpoint `link` of `message` was never stored on `bus`.
    pub fn partial_take(bus: &str, message: &str, link: Link) -> (error: Self)
        ensures
            error matches TakeChannelError::PartialTake(e) && e.bus@ == shortened(bus@)
                && e.message@ == shortened(message@) && e.link == link,
    {
        TakeChannelError::PartialTake(NotTakenError::new(bus, message, link))
    }

    /// The channel of `message` was already linked on `bus`.
    pub fn already_linked(bus: &str, message: &str) -> (error: Self)
        ensures
            error matches TakeChannelError::AlreadyLinked(e) && e.bus@ == shortened(bus@)
                && e.message@ == shortened(message@),
    {
        TakeChannelError::AlreadyLinked(AlreadyLinkedError::new(bus, message))
    }

    /// The endpoint `link` of `message` was already taken from `bus`.
    pub fn already_taken(bus: &str, message: &str, link: Link) -> (error: Self)
        ensures
            error matches TakeChannelError::AlreadyTaken(e) && e.bus@ == shortened(bus@)
                && e.message@ == shortened(message@) && e.link == link,
    {
        TakeChannelError::AlreadyTaken(LinkTakenError::new(bus, message, link))
    }

    /// Writes the error as text.
    pub fn to_string(&self) -> (out: String)
        ensures
            out@ == self.text(),
    {
        match self {
            TakeChannelError::PartialTake(e) => String::from_str(
                "channel endpoints partially taken: ",
            ).concat(e.to_string().as_str()),
            TakeChannelError::AlreadyLinked(e) => String::from_str(
                "channel already linked: ",
            ).concat(e.to_string().as_str()),
            TakeChannelError::AlreadyTaken(e) => String::from_str(
                "channel already taken: ",
            ).concat(e.to_string().as_str()),
        }
    }
}

/// The resource was already taken from the bus.
#[derive(Debug)]
pub struct ResourceTakenError {
    pub bus: String,
    pub resource: String,
}

impl ResourceTakenError {
    /// The text of the error for the short names `bus` and `resource`.
    pub open spec fn text(bus: Seq<char>, resource: Seq<char>) -> Seq<char> {
        "resource already taken: "@ + bus + " < "@ + resource + " >"@
    }

    /// Describes `resource` on `bus`, both given as full type names.
    pub fn new(bus: &str, resource: &str) -> (error: Self)
        ensures
            error.bus@ == shortened(bus@),
            error.resource@ == shortened(resource@),
    {
        ResourceTakenError { bus: short_name(bus), resource: short_name(resource) }
    }

    /// Writes the error as text.
    pub fn to_string(&self) -> (out: String)
        ensures
            out@ == Self::text(self.bus@, self.resource@),
    {
        String::from_str("resource already taken: ").concat(self.bus.as_str()).concat(
            " < ",
        ).concat(self.resource.as_str()).concat(" >")
    }
}

/// The resource was never stored on the bus.
#[derive(Debug)]
pub struct ResourceUninitializedError {
    pub bus: String,
    pub resource: String,
}

impl ResourceUninitializedError {
    /// The text of the error for the short names `bus` and `resource`.
    pub open spec fn text(bus: Seq<char>, resource: Seq<char>) -> Seq<char> {
        "resource uninitialized: "@ + bus + " < "@ + resource + " >"@
    }

    /// Describes `resource` on `bus`, both given as full type names.
    pub fn new(bus: &str, resource: &str) -> (error: Self)
        ensures
            error.bus@ == shortened(bus@),
            error.resource@ == shortened(resource@),
    {
        ResourceUninitializedError { bus: short_name(bus), resource: short_name(resource) }
    }

    /// Writes the error as text.
    pub fn to_string(&self) -> (out: String)
        ensures
            out@ == Self::text(self.bus@, self.resource@),
    {
        String::from_str("resource uninitialized: ").concat(self.bus.as_str()).concat(
            " < ",
        ).concat(self.resource.as_str()).concat(" >")
    }
}

/// The resource was already stored on the bus, and the operation needed one that was not.
#[derive(Debug)]
pub struct ResourceInitializedError {
    pub bus: String,
    pub resource: String,
}

impl ResourceInitializedError {
    /// The text of the error for the short names `bus` and `resource`.
    pub open spec fn text(bus: Seq<char>, resource: Seq<char>) -> Seq<char> {
        "resource already initialized: "@ + bus + " < "@ + resource + " >"@
    }

    /// Describes `resource` on `bus`, both given as full type names.
    pub fn new(bus: &str, resource: &str) -> (error: Self)
        ensures
            error.bus@ == shortened(bus@),
            error.resource@ == shortened(resource@),
    {
        ResourceInitializedError { bus: short_name(bus), resource: short_name(resource) }
    }

    /// Writes the error as text.
    pub fn to_string(&self) -> (out: String)
        ensures
            out@ == Self::text(self.bus@, self.resource@),
    {
        String::from_str("resource already initialized: ").concat(self.bus.as_str()).concat(
            " < ",
        ).concat(self.resource.as_str()).concat(" >")
    }
}

/// The resource was not stored, or was handed out once and had already been taken.
#[derive(Debug)]
pub enum TakeResourceError {
    /// The resource was never stored.
    Uninitialized(ResourceUninitializedError),
    /// The resource is handed out once, and it was already taken.
    Taken(ResourceTakenError),
}

impl TakeResourceError {
    /// The text of the error.
    pub open spec fn text(self) -> Seq<char> {
        match self {
            TakeResourceError::Uninitialized(e) => ResourceUninitializedError::text(
                e.bus@,
                e.resource@,
            ),
            TakeResourceError::Taken(e) => ResourceTakenError::text(e.bus@, e.resource@),
        }
    }

    /// `resource` was never stored on `bus`.
    pub fn uninitialized(bus: &str, resource: &str) -> (error: Self)
        ensures
            error matches TakeResourceError::Uninitialized(e) && e.bus@ == shortened(bus@)
                && e.resource@ == shortened(resource@),
    {
        TakeResourceError::Uninitialized(ResourceUninitializedError::new(bus, resource))
    }

    /// `resource` was already taken from `bus`.
    pub fn taken(bus: &str, resource: &str) -> (error: Self)
        ensures
            error matches TakeResourceError::Taken(e) && e.bus@ == shortened(bus@)
                && e.resource@ == shortened(resource@),
    {
        TakeResourceError::Taken(ResourceTakenError::new(bus, resource))
    }

    /// Writes the error as text.
    pub fn to_string(&self) -> (out: String)
        ensures
            out@ == self.text(),
    {
        match self {
            TakeResourceError::Uninitialized(e) => e.to_string(),
            TakeResourceError::Taken(e) => e.to_string(),
        }
    }
}

} // verus!
