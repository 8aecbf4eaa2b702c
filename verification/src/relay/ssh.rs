//! The arguments of the system `ssh` binary for remote commands.
//!
//! The OS `ssh` reuses the user's `known_hosts` and agent. Only key-based
//! authentication is used: password prompts are suppressed.
use crate::command::string_views;
use crate::text::{decimal, decimal_vec, lit, push_str, string_of};
use vstd::prelude::*;

verus! {

/// Why a remote command failed.
#[derive(Debug, Clone)]
pub enum SshError {
    NotFound(String),
    Failed { code: i32, stderr: String },
    Io(String),
}

/// The decimal text of an integer, with a minus sign when negative.
pub open spec fn int_text(i: int) -> Seq<char> {
    if i < 0 {
        "-"@ + decimal((-i) as nat)
    } else {
        decimal(i as nat)
    }
}

fn int_text_exec(i: i32) -> (r: Vec<char>)
    ensures
        r@ == int_text(i as int),
{
    let wide: i64 = i as i64;
    if wide < 0 {
        let mut b = lit("-");
        let d = decimal_vec((-wide) as u64);
        let ghost before = b@;
        let mut k: usize = 0;
        while k < d.len()
            invariant
                k <= d.len(),
                b@ =~= before + d@.take(k as int),
            decreases d.len() - k,
        {
            b.push(d[k]);
            assert(d@.take(k + 1) =~= d@.take(k as int).push(d@[k as int]));
            k += 1;
        }
        assert(d@.take(d.len() as int) =~= d@);
        b
    } else {
        decimal_vec(wide as u64)
    }
}

impl SshError {
    pub open spec fn message_spec(&self) -> Seq<char> {
        match self {
            SshError::NotFound(m) => "ssh binary not found: "@ + m@,
            SshError::Failed { code, stderr } => "ssh command failed (exit "@ + int_text(*code as int) + "): "@ + stderr@,
            SshError::Io(m) => "IO error: "@ + m@,
        }
    }

    /// The human-readable description of the error (what `Display` shows).
    pub fn message(&self) -> (r: String)
        ensures
            r@ == self.message_spec(),
    {
        match self {
            SshError::NotFound(m) => {
                let mut b = lit("ssh binary not found: ");
                push_str(&mut b, m.as_str());
                string_of(&b)
            },
            SshError::Failed { code, stderr } => {
                let mut b = lit("ssh command failed (exit ");
                let c = int_text_exec(*code);
                let ghost before = b@;
                let mut k: usize = 0;
                while k < c.len()
                    invariant
                        k <= c.len(),
                        b@ =~= before + c@.take(k as int),
                    decreases c.len() - k,
                {
                    b.push(c[k]);
                    assert(c@.take(k + 1) =~= c@.take(k as int).push(c@[k as int]));
                    k += 1;
                }
                assert(c@.take(c.len() as int) =~= c@);
                push_str(&mut b, "): ");
                push_str(&mut b, stderr.as_str());
                string_of(&b)
            },
            SshError::Io(m) => {
                let mut b = lit("IO error: ");
                push_str(&mut b, m.as_str());
                string_of(&b)
            },
        }
    }
}

/// Where and as whom to connect.
#[derive(Debug, Clone)]
pub struct SshClient {
    pub host: String,
    pub port: u16,
    pub user: String,
    /// Path to the private key file on the local machine; `None` uses the
    /// default key from `~/.ssh/`.
    pub key_path: Option<String>,
}

/// The options every connection uses: accept a new host key only on first
/// connect, never prompt, give up connecting after 15 s, and detect a dead
/// session after three missed keepalives 10 s apart.
pub open spec fn fixed_options() -> Seq<Seq<char>> {
    seq![
        "-o"@, "StrictHostKeyChecking=accept-new"@,
        "-o"@, "BatchMode=yes"@,
        "-o"@, "ConnectTimeout=15"@,
        "-o"@, "ServerAliveInterval=10"@,
        "-o"@, "ServerAliveCountMax=3"@,
    ]
}

impl SshClient {
    /// The arguments of `ssh` that run `cmd` on the remote host.
    pub open spec fn args_spec(&self, cmd: Seq<char>) -> Seq<Seq<char>> {
        let key: Seq<Seq<char>> = match self.key_path {
            Some(k) => seq!["-i"@, k@],
            None => seq![],
        };
        seq!["-p"@, decimal(self.port as nat)] + fixed_options() + key + seq![self.user@ + "@"@ + self.host@, cmd]
    }

    /// The arguments of `ssh` that run `cmd` on the remote host.
    pub fn command_args(&self, cmd: &str) -> (r: Vec<String>)
        ensures
            string_views(r@) == self.args_spec(cmd@),
    {
        let mut r: Vec<String> = Vec::new();
        r.push("-p".to_owned());
        r.push(string_of(&decimal_vec(self.port as u64)));
        let opts = crate::command::strings(
            &[
                "-o", "StrictHostKeyChecking=accept-new",
                "-o", "BatchMode=yes",
                "-o", "ConnectTimeout=15",
                "-o", "ServerAliveInterval=10",
                "-o", "ServerAliveCountMax=3",
            ],
        );
        assert(string_views(opts@) =~= fixed_options());
        let ghost head = string_views(r@);
        let mut opts = opts;
        r.append(&mut opts);
        assert(string_views(r@) =~= head + fixed_options());
        let ghost with_opts = string_views(r@);
        if let Some(k) = &self.key_path {
            r.push("-i".to_owned());
            r.push(k.clone());
        }
        let ghost with_key = string_views(r@);
        let mut target = crate::text::chars_of(self.user.as_str());
        push_str(&mut target, "@");
        push_str(&mut target, self.host.as_str());
        r.push(string_of(&target));
        r.push(cmd.to_owned());
        assert(string_views(r@) =~= self.args_spec(cmd@)) by {
            assert(string_views(r@).take(with_key.len() as int) =~= with_key);
            assert(string_views(r@).take(with_opts.len() as int) =~= with_opts);
            assert(string_views(r@).take(2) =~= head);
        }
        r
    }
}

} // verus!
