use vstd::prelude::*;

use crate::body::{body_resolution, parse_body, BodyPlan};

verus! {

/// Parsed command-line input: root-level flags with an optional URL, or one
/// method subcommand that overrides them.
pub struct Args {
    pub url: Option<String>,
    pub get: bool,
    pub post: bool,
    pub put: bool,
    pub delete: bool,
    pub patch: bool,
    pub body: Option<String>,
    pub verbose: u8,
    pub command: Option<Commands>,
}

/// One HTTP method subcommand.
pub enum Commands {
    Get { url: String, verbose: u8 },
    Post { url: String, body_data: Vec<String>, body: Option<String>, verbose: u8 },
    Put { url: String, body_data: Vec<String>, body: Option<String>, verbose: u8 },
    Delete { url: String, verbose: u8 },
    Patch { url: String, body_data: Vec<String>, body: Option<String>, verbose: u8 },
}

/// The method a subcommand names.
pub open spec fn command_method(c: Commands) -> Seq<char> {
    match c {
        Commands::Get { .. } => "GET"@,
        Commands::Post { .. } => "POST"@,
        Commands::Put { .. } => "PUT"@,
        Commands::Delete { .. } => "DELETE"@,
        Commands::Patch { .. } => "PATCH"@,
    }
}

/// The method the root flags name, tie-broken POST over PUT over DELETE over
/// PATCH, with GET the default.
pub open spec fn flag_method(args: Args) -> Seq<char> {
    if args.post {
        "POST"@
    } else if args.put {
        "PUT"@
    } else if args.delete {
        "DELETE"@
    } else if args.patch {
        "PATCH"@
    } else {
        "GET"@
    }
}

/// The selected method: a subcommand always wins over the root flags.
pub open spec fn spec_method(args: Args) -> Seq<char> {
    match args.command {
        Some(c) => command_method(c),
        None => flag_method(args),
    }
}

/// The URL a subcommand names.
pub open spec fn command_url(c: Commands) -> Seq<char> {
    match c {
        Commands::Get { url, .. } => url@,
        Commands::Post { url, .. } => url@,
        Commands::Put { url, .. } => url@,
        Commands::Delete { url, .. } => url@,
        Commands::Patch { url, .. } => url@,
    }
}

/// The selected URL: the subcommand's, else the root positional one.
pub open spec fn spec_url(args: Args) -> Seq<char> {
    match args.command {
        Some(c) => command_url(c),
        None => args.url.unwrap()@,
    }
}

/// The verbosity a subcommand carries.
pub open spec fn command_verbose(c: Commands) -> u8 {
    match c {
        Commands::Get { verbose, .. } => verbose,
        Commands::Post { verbose, .. } => verbose,
        Commands::Put { verbose, .. } => verbose,
        Commands::Delete { verbose, .. } => verbose,
        Commands::Patch { verbose, .. } => verbose,
    }
}

/// The selected verbosity: the subcommand's, else the root flag's.
pub open spec fn spec_verbose(args: Args) -> u8 {
    match args.command {
        Some(c) => command_verbose(c),
        None => args.verbose,
    }
}

/// A given subcommand decides the method by itself: the root method flags
/// are not consulted.
pub proof fn lemma_subcommand_method_wins(args: Args)
    requires
        args.command is Some,
    ensures
        spec_method(args) == command_method(args.command.unwrap()),
{
}

impl Args {
    /// The HTTP method, from the subcommand when one was given, else from
    /// the root flags.
    pub fn method(&self) -> (r: &str)
        ensures
            r@ == spec_method(*self),
    {
        match &self.command {
            Some(cmd) => match cmd {
                Commands::Get { .. } => "GET",
                Commands::Post { .. } => "POST",
                Commands::Put { .. } => "PUT",
                Commands::Delete { .. } => "DELETE",
                Commands::Patch { .. } => "PATCH",
            },
            None => {
                if self.post {
                    "POST"
                } else if self.put {
                    "PUT"
                } else if self.delete {
                    "DELETE"
                } else if self.patch {
                    "PATCH"
                } else {
                    "GET"
                }
            },
        }
    }

    /// The URL, from the subcommand when one was given, else from the root
    /// positional argument, which must then be present.
    pub fn get_url(&self) -> (r: &str)
        requires
            self.command is Some || self.url is Some,
        ensures
            r@ == spec_url(*self),
    {
        match &self.command {
            Some(cmd) => match cmd {
                Commands::Get { url, .. } => url.as_str(),
                Commands::Post { url, .. } => url.as_str(),
                Commands::Put { url, .. } => url.as_str(),
                Commands::Delete { url, .. } => url.as_str(),
                Commands::Patch { url, .. } => url.as_str(),
            },
            None => match &self.url {
                Some(u) => u.as_str(),
                None => unreached(),
            },
        }
    }

    /// Resolves the body inputs: a body-carrying subcommand resolves its
    /// flag and trailing tokens, other subcommands have no body, and the
    /// root form takes the root flag alone.
    pub fn get_body(&self) -> (r: Result<BodyPlan, String>)
        ensures
            match self.command {
                Some(c) => match c {
                    Commands::Post { body, body_data, .. } => body_resolution(
                        body,
                        body_data.deep_view(),
                        r,
                    ),
                    Commands::Put { body, body_data, .. } => body_resolution(
                        body,
                        body_data.deep_view(),
                        r,
                    ),
                    Commands::Patch { body, body_data, .. } => body_resolution(
                        body,
                        body_data.deep_view(),
                        r,
                    ),
                    _ => r == Ok::<BodyPlan, String>(BodyPlan::Resolved(None)),
                },
                None => r == Ok::<BodyPlan, String>(BodyPlan::Resolved(self.body)),
            },
    {
        match &self.command {
            Some(cmd) => match cmd {
                Commands::Post { body, body_data, .. } => parse_body(clone_opt(body), body_data),
                Commands::Put { body, body_data, .. } => parse_body(clone_opt(body), body_data),
                Commands::Patch { body, body_data, .. } => parse_body(clone_opt(body), body_data),
                _ => Ok(BodyPlan::Resolved(None)),
            },
            None => Ok(BodyPlan::Resolved(clone_opt(&self.body))),
        }
    }

    /// The verbosity, from the subcommand when one was given, else from the
    /// root flag.
    pub fn get_verbose(&self) -> (r: u8)
        ensures
            r == spec_verbose(*self),
    {
        match &self.command {
            Some(cmd) => match cmd {
                Commands::Get { verbose, .. } => *verbose,
                Commands::Post { verbose, .. } => *verbose,
                Commands::Put { verbose, .. } => *verbose,
                Commands::Delete { verbose, .. } => *verbose,
                Commands::Patch { verbose, .. } => *verbose,
            },
            None => self.verbose,
        }
    }
}

/// An exact copy of an optional string.
fn clone_opt(o: &Option<String>) -> (r: Option<String>)
    ensures
        r == *o,
{
    match o {
        Some(s) => Some(s.clone()),
        None => None,
    }
}

} // verus!
