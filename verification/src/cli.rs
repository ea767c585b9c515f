use vstd::prelude::*;

verus! {

/// The command line: where the configuration is, and what is to be done.
#[derive(Debug)]
pub struct Opts {
    /// A configuration file other than the default one.
    pub config: Option<String>,
    pub cmd: Command,
}

/// What is to be done.
#[derive(Debug)]
pub enum Command {
    /// Repair the configuration file.
    RepairConfig,
    /// Make a configuration file.
    Setup {
        non_interactive: bool,
        server: Option<String>,
        no_tls: bool,
        token: Option<String>,
        path: Option<String>,
        custom_ca: Option<String>,
    },
    /// List the roles to sign as.
    List,
    /// Sign a public key.
    Sign { role: String, key: String, output: Option<String> },
    /// Open a session with a freshly signed certificate.
    Connect {
        role: String,
        private_key: Option<String>,
        public_key: Option<String>,
        server: String,
        /// Transfer files in place of a shell session.
        sftp: bool,
        options: Option<String>,
    },
    /// Manage the profiles.
    Profiles(Profiles),
}

/// What is to be done with the profiles.
#[derive(Debug)]
pub enum Profiles {
    Create {
        name: String,
        username: Option<String>,
        address: String,
        role: String,
        private_key: Option<String>,
        public_key: Option<String>,
        options: Option<String>,
    },
    Read { name: String },
    List,
    Update {
        name: String,
        username: Option<String>,
        address: Option<String>,
        role: Option<String>,
        private_key: Option<String>,
        public_key: Option<String>,
        options: Option<String>,
    },
    Delete { name: String },
    Connect {
        name: String,
        /// Transfer files in place of a shell session.
        sftp: bool,
    },
}

impl Command {
    /// Whether the command works on the stored configuration: every command does but
    /// those that make or repair it.
    pub fn needs_config(&self) -> (r: bool)
        ensures
            r == !(self is RepairConfig || self is Setup),
    {
        match self {
            Command::RepairConfig => false,
            Command::Setup { .. } => false,
            _ => true,
        }
    }

    /// Whether the command talks to the remote API: listing, signing and connecting
    /// do, directly or by a profile.
    pub fn needs_client(&self) -> (r: bool)
        ensures
            r == (self is List || self is Sign || self is Connect || self matches Command::Profiles(
                Profiles::Connect { .. },
            )),
    {
        match self {
            Command::List => true,
            Command::Sign { .. } => true,
            Command::Connect { .. } => true,
            Command::Profiles(Profiles::Connect { .. }) => true,
            _ => false,
        }
    }
}

} // verus!
