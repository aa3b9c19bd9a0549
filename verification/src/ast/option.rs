//! Options: settings that a request carries in its `[Options]` section.

use vstd::prelude::*;
use vstd::string::*;
use crate::ast::primitive::{line_terminators_source, LineTerminator, SourceInfo, Whitespace};
use crate::ast::template::{Placeholder, Template};
use crate::ast::value::{Count, Duration, Number, U64};
use crate::text::bool_text;

verus! {

/// A boolean setting: written out, or left to a placeholder.
#[derive(Clone, Debug, PartialEq, Eq)]
pub enum BooleanOption {
    Literal(bool),
    Placeholder(Placeholder),
}

impl BooleanOption {
    pub open spec fn source(&self) -> Seq<char> {
        match self {
            BooleanOption::Literal(v) => bool_text(*v),
            BooleanOption::Placeholder(p) => p.source(),
        }
    }
}

/// A natural-number setting: written out, or left to a placeholder.
#[derive(Clone, Debug, PartialEq, Eq)]
pub enum NaturalOption {
    Literal(U64),
    Placeholder(Placeholder),
}

impl NaturalOption {
    pub open spec fn source(&self) -> Seq<char> {
        match self {
            NaturalOption::Literal(v) => v.source(),
            NaturalOption::Placeholder(p) => p.source(),
        }
    }
}

/// A count setting: written out, or left to a placeholder.
#[derive(Clone, Debug, PartialEq, Eq)]
pub enum CountOption {
    Literal(Count),
    Placeholder(Placeholder),
}

impl CountOption {
    pub open spec fn source(&self) -> Seq<char> {
        match self {
            CountOption::Literal(v) => v.source(),
            CountOption::Placeholder(p) => p.source(),
        }
    }
}

/// A duration setting: written out, or left to a placeholder.
#[derive(Clone, Debug, PartialEq, Eq)]
pub enum DurationOption {
    Literal(Duration),
    Placeholder(Placeholder),
}

impl DurationOption {
    pub open spec fn source(&self) -> Seq<char> {
        match self {
            DurationOption::Literal(v) => v.source(),
            DurationOption::Placeholder(p) => p.source(),
        }
    }
}

/// The value that a variable is set to.
#[derive(Clone, Debug, PartialEq, Eq)]
pub enum VariableValue {
    Null,
    Bool(bool),
    Number(Number),
    String(Template),
}

impl VariableValue {
    pub open spec fn source(&self) -> Seq<char> {
        match self {
            VariableValue::Null => "null"@,
            VariableValue::Bool(v) => bool_text(*v),
            VariableValue::Number(v) => v.source(),
            VariableValue::String(v) => v.source(),
        }
    }
}

/// A variable set by an option: name, `=` and value.
#[derive(Clone, Debug, PartialEq, Eq)]
pub struct VariableDefinition {
    pub source_info: SourceInfo,
    pub name: String,
    pub space0: Whitespace,
    pub space1: Whitespace,
    pub value: VariableValue,
}

impl VariableDefinition {
    pub open spec fn source(&self) -> Seq<char> {
        self.name@ + self.space0.source() + seq!['='] + self.space1.source() + self.value.source()
    }
}

/// The settings, each with its value.
#[derive(Clone, Debug, PartialEq, Eq)]
pub enum OptionKind {
    AwsSigV4(Template),
    CaCertificate(Template),
    ClientCert(Template),
    ClientKey(Template),
    Compressed(BooleanOption),
    ConnectTo(Template),
    ConnectTimeout(DurationOption),
    Delay(DurationOption),
    FollowLocation(BooleanOption),
    FollowLocationTrusted(BooleanOption),
    Header(Template),
    Http10(BooleanOption),
    Http11(BooleanOption),
    Http2(BooleanOption),
    Http3(BooleanOption),
    Insecure(BooleanOption),
    IpV4(BooleanOption),
    IpV6(BooleanOption),
    LimitRate(NaturalOption),
    MaxRedirect(CountOption),
    MaxTime(DurationOption),
    NetRc(BooleanOption),
    NetRcFile(Template),
    NetRcOptional(BooleanOption),
    Output(Template),
    PathAsIs(BooleanOption),
    PinnedPublicKey(Template),
    Proxy(Template),
    Repeat(CountOption),
    Resolve(Template),
    Retry(CountOption),
    RetryInterval(DurationOption),
    Skip(BooleanOption),
    UnixSocket(Template),
    User(Template),
    Variable(VariableDefinition),
    Verbose(BooleanOption),
    VeryVerbose(BooleanOption),
}

impl OptionKind {
    /// The name of the setting.
    pub open spec fn name(&self) -> Seq<char> {
        match self {
            OptionKind::AwsSigV4(_) => "aws-sigv4"@,
            OptionKind::CaCertificate(_) => "cacert"@,
            OptionKind::ClientCert(_) => "cert"@,
            OptionKind::ClientKey(_) => "key"@,
            OptionKind::Compressed(_) => "compressed"@,
            OptionKind::ConnectTo(_) => "connect-to"@,
            OptionKind::ConnectTimeout(_) => "connect-timeout"@,
            OptionKind::Delay(_) => "delay"@,
            OptionKind::FollowLocation(_) => "location"@,
            OptionKind::FollowLocationTrusted(_) => "location-trusted"@,
            OptionKind::Header(_) => "header"@,
            OptionKind::Http10(_) => "http1.0"@,
            OptionKind::Http11(_) => "http1.1"@,
            OptionKind::Http2(_) => "http2"@,
            OptionKind::Http3(_) => "http3"@,
            OptionKind::Insecure(_) => "insecure"@,
            OptionKind::IpV4(_) => "ipv4"@,
            OptionKind::IpV6(_) => "ipv6"@,
            OptionKind::LimitRate(_) => "limit-rate"@,
            OptionKind::MaxRedirect(_) => "max-redirs"@,
            OptionKind::MaxTime(_) => "max-time"@,
            OptionKind::NetRc(_) => "netrc"@,
            OptionKind::NetRcFile(_) => "netrc-file"@,
            OptionKind::NetRcOptional(_) => "netrc-optional"@,
            OptionKind::Output(_) => "output"@,
            OptionKind::PathAsIs(_) => "path-as-is"@,
            OptionKind::PinnedPublicKey(_) => "pinned-pubkey"@,
            OptionKind::Proxy(_) => "proxy"@,
            OptionKind::Repeat(_) => "repeat"@,
            OptionKind::Resolve(_) => "resolve"@,
            OptionKind::Retry(_) => "retry"@,
            OptionKind::RetryInterval(_) => "retry-interval"@,
            OptionKind::Skip(_) => "skip"@,
            OptionKind::UnixSocket(_) => "unix-socket"@,
            OptionKind::User(_) => "user"@,
            OptionKind::Variable(_) => "variable"@,
            OptionKind::Verbose(_) => "verbose"@,
            OptionKind::VeryVerbose(_) => "very-verbose"@,
        }
    }

    /// The value of the setting as the document writes it.
    pub open spec fn value_source(&self) -> Seq<char> {
        match self {
            OptionKind::AwsSigV4(v) => v.source(),
            OptionKind::CaCertificate(v) => v.source(),
            OptionKind::ClientCert(v) => v.source(),
            OptionKind::ClientKey(v) => v.source(),
            OptionKind::Compressed(v) => v.source(),
            OptionKind::ConnectTo(v) => v.source(),
            OptionKind::ConnectTimeout(v) => v.source(),
            OptionKind::Delay(v) => v.source(),
            OptionKind::FollowLocation(v) => v.source(),
            OptionKind::FollowLocationTrusted(v) => v.source(),
            OptionKind::Header(v) => v.source(),
            OptionKind::Http10(v) => v.source(),
            OptionKind::Http11(v) => v.source(),
            OptionKind::Http2(v) => v.source(),
            OptionKind::Http3(v) => v.source(),
            OptionKind::Insecure(v) => v.source(),
            OptionKind::IpV4(v) => v.source(),
            OptionKind::IpV6(v) => v.source(),
            OptionKind::LimitRate(v) => v.source(),
            OptionKind::MaxRedirect(v) => v.source(),
            OptionKind::MaxTime(v) => v.source(),
            OptionKind::NetRc(v) => v.source(),
            OptionKind::NetRcFile(v) => v.source(),
            OptionKind::NetRcOptional(v) => v.source(),
            OptionKind::Output(v) => v.source(),
            OptionKind::PathAsIs(v) => v.source(),
            OptionKind::PinnedPublicKey(v) => v.source(),
            OptionKind::Proxy(v) => v.source(),
            OptionKind::Repeat(v) => v.source(),
            OptionKind::Resolve(v) => v.source(),
            OptionKind::Retry(v) => v.source(),
            OptionKind::RetryInterval(v) => v.source(),
            OptionKind::Skip(v) => v.source(),
            OptionKind::UnixSocket(v) => v.source(),
            OptionKind::User(v) => v.source(),
            OptionKind::Variable(v) => v.source(),
            OptionKind::Verbose(v) => v.source(),
            OptionKind::VeryVerbose(v) => v.source(),
        }
    }

    /// The name of the setting.
    pub fn identifier(&self) -> (s: &'static str)
        ensures
            s@ == self.name(),
    {
        match self {
            OptionKind::AwsSigV4(_) => "aws-sigv4",
            OptionKind::CaCertificate(_) => "cacert",
            OptionKind::ClientCert(_) => "cert",
            OptionKind::ClientKey(_) => "key",
            OptionKind::Compressed(_) => "compressed",
            OptionKind::ConnectTo(_) => "connect-to",
            OptionKind::ConnectTimeout(_) => "connect-timeout",
            OptionKind::Delay(_) => "delay",
            OptionKind::FollowLocation(_) => "location",
            OptionKind::FollowLocationTrusted(_) => "location-trusted",
            OptionKind::Header(_) => "header",
            OptionKind::Http10(_) => "http1.0",
            OptionKind::Http11(_) => "http1.1",
            OptionKind::Http2(_) => "http2",
            OptionKind::Http3(_) => "http3",
            OptionKind::Insecure(_) => "insecure",
            OptionKind::IpV4(_) => "ipv4",
            OptionKind::IpV6(_) => "ipv6",
            OptionKind::LimitRate(_) => "limit-rate",
            OptionKind::MaxRedirect(_) => "max-redirs",
            OptionKind::MaxTime(_) => "max-time",
            OptionKind::NetRc(_) => "netrc",
            OptionKind::NetRcFile(_) => "netrc-file",
            OptionKind::NetRcOptional(_) => "netrc-optional",
            OptionKind::Output(_) => "output",
            OptionKind::PathAsIs(_) => "path-as-is",
            OptionKind::PinnedPublicKey(_) => "pinned-pubkey",
            OptionKind::Proxy(_) => "proxy",
            OptionKind::Repeat(_) => "repeat",
            OptionKind::Resolve(_) => "resolve",
            OptionKind::Retry(_) => "retry",
            OptionKind::RetryInterval(_) => "retry-interval",
            OptionKind::Skip(_) => "skip",
            OptionKind::UnixSocket(_) => "unix-socket",
            OptionKind::User(_) => "user",
            OptionKind::Variable(_) => "variable",
            OptionKind::Verbose(_) => "verbose",
            OptionKind::VeryVerbose(_) => "very-verbose",
        }
    }
}

/// One line of an `[Options]` section: name, colon and value.
#[derive(Clone, Debug, PartialEq, Eq)]
pub struct EntryOption {
    pub line_terminators: Vec<LineTerminator>,
    pub space0: Whitespace,
    pub space1: Whitespace,
    pub space2: Whitespace,
    pub kind: OptionKind,
    pub line_terminator0: LineTerminator,
}

impl EntryOption {
    pub open spec fn source(&self) -> Seq<char> {
        line_terminators_source(self.line_terminators@) + self.space0.source() + self.kind.name()
            + self.space1.source() + seq![':'] + self.space2.source() + self.kind.value_source()
            + self.line_terminator0.source()
    }
}

} // verus!
