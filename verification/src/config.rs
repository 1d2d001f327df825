//! The driver's configuration, as the rest of the driver reads it.

use crate::tty::TtySetting;
use vstd::prelude::*;

verus! {

/// A serial line.
pub struct ConsoleSerial {
    pub serial_file: String,
    pub bund_rate: u32,
    pub setting: TtySetting,
    pub log_file: Option<String>,
}

/// A shell behind SSH.
pub struct ConsoleSSH {
    pub host: String,
    pub port: u16,
    pub username: String,
    pub password: Option<String>,
    pub private_key: Option<String>,
    pub setting: TtySetting,
    pub log_file: Option<String>,
}

/// A framebuffer behind VNC.
pub struct ConsoleVNC {
    pub host: String,
    pub port: u16,
    pub password: Option<String>,
    pub needle_dir: Option<String>,
    pub screenshot_dir: Option<String>,
}

/// The names and values of an environment, as texts.
pub open spec fn env_view(env: Seq<(String, String)>) -> Seq<(Seq<char>, Seq<char>)> {
    Seq::new(env.len(), |i: int| (env[i].0@, env[i].1@))
}

/// No name stands twice in the environment.
pub open spec fn distinct_names(env: Seq<(Seq<char>, Seq<char>)>) -> bool {
    forall|i: int, j: int| 0 <= i < j < env.len() ==> (#[trigger] env[i]).0 != (#[trigger] env[j]).0
}

/// The value that the first `n` entries of the environment give to `name`.
pub open spec fn env_value(env: Seq<(Seq<char>, Seq<char>)>, name: Seq<char>, n: int) -> Option<
    Seq<char>,
>
    decreases n,
{
    if n <= 0 || n > env.len() {
        None
    } else if env[n - 1].0 == name {
        Some(env[n - 1].1)
    } else {
        env_value(env, name, n - 1)
    }
}

/// The environment gives `name` the value of the entry that bears the name,
/// and none if no entry does.
pub proof fn lemma_env_value(env: Seq<(Seq<char>, Seq<char>)>, name: Seq<char>, n: int)
    requires
        0 <= n <= env.len(),
        distinct_names(env),
    ensures
        forall|i: int| 0 <= i < n && (#[trigger] env[i]).0 == name ==> env_value(env, name, n) == Some(
            env[i].1,
        ),
        (forall|i: int| 0 <= i < n ==> (#[trigger] env[i]).0 != name) ==> env_value(env, name, n)
            is None,
    decreases n,
{
    if n > 0 {
        lemma_env_value(env, name, n - 1);
    }
}

/// Abstract value of a [`Config`]: the consoles it names, each with what it
/// says of it, and the environment as texts.
pub struct ConfigView {
    pub serial: Option<ConsoleSerial>,
    pub ssh: Option<ConsoleSSH>,
    pub vnc: Option<ConsoleVNC>,
    pub env: Seq<(Seq<char>, Seq<char>)>,
}

/// What the driver is to connect to, and what scripts may ask it for.
pub struct Config {
    serial: Option<ConsoleSerial>,
    ssh: Option<ConsoleSSH>,
    vnc: Option<ConsoleVNC>,
    env: Vec<(String, String)>,
}

impl View for Config {
    type V = ConfigView;

    closed spec fn view(&self) -> ConfigView {
        ConfigView { serial: self.serial, ssh: self.ssh, vnc: self.vnc, env: env_view(self.env@) }
    }
}

impl Config {
    #[verifier::type_invariant]
    spec fn inv(&self) -> bool {
        distinct_names(env_view(self.env@))
    }

    /// A configuration of these consoles and this environment. Refused if a
    /// name stands twice in the environment.
    pub fn new(
        serial: Option<ConsoleSerial>,
        ssh: Option<ConsoleSSH>,
        vnc: Option<ConsoleVNC>,
        env: Vec<(String, String)>,
    ) -> (r: Option<Config>)
        ensures
            r is Some <==> distinct_names(env_view(env@)),
            r matches Some(c) ==> c@ == (ConfigView { serial, ssh, vnc, env: env_view(env@) }),
    {
        let n: usize = env.len();
        let mut j: usize = 0;
        while j < n
            invariant
                n == env@.len(),
                j <= n,
                forall|a: int, b: int|
                    0 <= a < b < j ==> (#[trigger] env_view(env@)[a]).0 != (#[trigger] env_view(
                        env@,
                    )[b]).0,
            decreases n - j,
        {
            let mut i: usize = 0;
            while i < j
                invariant
                    n == env@.len(),
                    i <= j < n,
                    forall|a: int| 0 <= a < i ==> (#[trigger] env_view(env@)[a]).0 != env_view(env@)[j as int].0,
                decreases j - i,
            {
                if env[i].0 == env[j].0 {
                    assert(env_view(env@)[i as int].0 == env_view(env@)[j as int].0);
                    return None;
                }
                i += 1;
            }
            j += 1;
        }
        Some(Config { serial, ssh, vnc, env })
    }

    /// The serial line that the configuration names, as it was given.
    pub fn serial(&self) -> (c: &Option<ConsoleSerial>)
        ensures
            *c == self@.serial,
    {
        &self.serial
    }

    /// The SSH shell that the configuration names, as it was given.
    pub fn ssh(&self) -> (c: &Option<ConsoleSSH>)
        ensures
            *c == self@.ssh,
    {
        &self.ssh
    }

    /// The screen that the configuration names, as it was given.
    pub fn vnc(&self) -> (c: &Option<ConsoleVNC>)
        ensures
            *c == self@.vnc,
    {
        &self.vnc
    }

    /// Forgets the text consoles, for a run that only drives the screen.
    pub fn without_text_consoles(self) -> (c: Config)
        ensures
            c@ == (ConfigView { serial: None, ssh: None, ..self@ }),
    {
        proof {
            use_type_invariant(&self);
        }
        Config { serial: None, ssh: None, vnc: self.vnc, env: self.env }
    }

    /// The value that the environment gives to `key`.
    pub fn get_env(&self, key: &String) -> (value: Option<String>)
        ensures
            distinct_names(self@.env),
            match env_value(self@.env, key@, self@.env.len() as int) {
                Some(v) => value matches Some(s) && s@ == v,
                None => value is None,
            },
    {
        proof {
            use_type_invariant(self);
        }
        let mut n: usize = self.env.len();
        while n > 0
            invariant
                n <= self.env@.len(),
                distinct_names(self@.env),
                env_value(self@.env, key@, self@.env.len() as int) == env_value(
                    self@.env,
                    key@,
                    n as int,
                ),
            decreases n,
        {
            if self.env[n - 1].0 == *key {
                return Some(self.env[n - 1].1.clone());
            }
            n -= 1;
        }
        None
    }
}

} // verus!
