//! The `logs` subcommand.

use vstd::prelude::*;
use vstd::string::*;

use crate::config::{opt_string_view, strings_view};
use crate::docker_compose::{clone_services, service_name, Service};
use crate::text::owned;

verus! {

/// View output from the containers.
#[derive(Debug)]
pub struct Logs {
    /// Follow log output.
    pub follow: bool,
    /// Produce monochrome output.
    pub no_color: bool,
    /// Don't print prefix in logs.
    pub no_log_prefix: bool,
    /// Show logs since timestamp (e.g. 2013-01-02T13:23:37Z) or relative (e.g.
    /// 42m for 42 minutes).
    pub since: Option<String>,
    /// Number of lines to show from the end of the logs for each container.
    pub tail: String,
    /// Show timestamps.
    pub timestamps: bool,
    /// Show logs before a timestamp (e.g. 2013-01-02T13:23:37Z) or relative
    /// (e.g. 42m for 42 minutes).
    pub until: Option<String>,
    /// The logged service list.
    pub services: Vec<Service>,
}

impl Default for Logs {
    /// The command line's defaults: all the lines of the app's logs.
    fn default() -> (r: Self)
        ensures
            !r.follow && !r.no_color && !r.no_log_prefix && !r.timestamps,
            r.since is None && r.until is None,
            r.tail@ == "all"@,
            r.services@ == seq![Service::App],
    {
        Logs {
            follow: false,
            no_color: false,
            no_log_prefix: false,
            since: None,
            tail: owned("all"),
            timestamps: false,
            until: None,
            services: vec![Service::App],
        }
    }
}

/// A flag where it is set.
pub open spec fn flag(set: bool, name: Seq<char>) -> Seq<Seq<char>> {
    if set {
        seq![name]
    } else {
        Seq::empty()
    }
}

/// An option and its value where it has one.
pub open spec fn option_arg(value: Option<Seq<char>>, name: Seq<char>) -> Seq<Seq<char>> {
    match value {
        Some(v) => seq![name, v],
        None => Seq::empty(),
    }
}

/// The arguments of `docker compose` that show the logs.
pub open spec fn logs_args(logs: Logs) -> Seq<Seq<char>> {
    seq!["logs"@, "--tail"@, logs.tail@] + flag(logs.follow, "--follow"@) + flag(
        logs.no_color,
        "--no-color"@,
    ) + flag(logs.no_log_prefix, "--no-log-prefix"@) + option_arg(
        opt_string_view(logs.since),
        "--since"@,
    ) + flag(logs.timestamps, "--timestamps"@) + option_arg(opt_string_view(logs.until), "--until"@)
        + logs.services@.map_values(|s: Service| service_name(s))
}

impl Logs {
    /// The arguments of `docker compose` that show the logs asked for.
    pub fn compose_args(&self) -> (r: Vec<String>)
        ensures
            strings_view(r@) == logs_args(*self),
    {
        let mut args: Vec<String> = vec![owned("logs"), owned("--tail"), self.tail.clone()];
        proof {
            assert(strings_view(args@) =~= seq!["logs"@, "--tail"@, self.tail@]);
        }
        let ghost a0 = strings_view(args@);
        if self.follow {
            args.push(owned("--follow"));
        }
        proof {
            assert(strings_view(args@) =~= a0 + flag(self.follow, "--follow"@));
        }
        let ghost a1 = strings_view(args@);
        if self.no_color {
            args.push(owned("--no-color"));
        }
        proof {
            assert(strings_view(args@) =~= a1 + flag(self.no_color, "--no-color"@));
        }
        let ghost a2 = strings_view(args@);
        if self.no_log_prefix {
            args.push(owned("--no-log-prefix"));
        }
        proof {
            assert(strings_view(args@) =~= a2 + flag(self.no_log_prefix, "--no-log-prefix"@));
        }
        let ghost a3 = strings_view(args@);
        if let Some(since) = &self.since {
            args.push(owned("--since"));
            args.push(since.clone());
        }
        proof {
            assert(strings_view(args@) =~= a3 + option_arg(opt_string_view(self.since), "--since"@));
        }
        let ghost a4 = strings_view(args@);
        if self.timestamps {
            args.push(owned("--timestamps"));
        }
        proof {
            assert(strings_view(args@) =~= a4 + flag(self.timestamps, "--timestamps"@));
        }
        let ghost a5 = strings_view(args@);
        if let Some(until) = &self.until {
            args.push(owned("--until"));
            args.push(until.clone());
        }
        proof {
            assert(strings_view(args@) =~= a5 + option_arg(opt_string_view(self.until), "--until"@));
        }
        let ghost a6 = strings_view(args@);
        let ghost names = self.services@.map_values(|s: Service| service_name(s));
        let mut i: usize = 0;
        while i < self.services.len()
            invariant
                0 <= i <= self.services.len(),
                names == self.services@.map_values(|s: Service| service_name(s)),
                strings_view(args@) == a6 + names.take(i as int),
            decreases self.services.len() - i,
        {
            let ghost before = args@;
            args.push(owned(self.services[i].to_str()));
            proof {
                assert(strings_view(args@) =~= strings_view(before).push(names[i as int]));
                assert(names.take(i + 1) =~= names.take(i as int).push(names[i as int]));
            }
            i += 1;
        }
        proof {
            assert(names.take(i as int) =~= names);
        }
        args
    }

    /// A copy of the logs command.
    pub fn clone_logs(&self) -> (r: Logs)
        ensures
            r.follow == self.follow && r.no_color == self.no_color && r.no_log_prefix
                == self.no_log_prefix && r.timestamps == self.timestamps,
            opt_string_view(r.since) == opt_string_view(self.since),
            opt_string_view(r.until) == opt_string_view(self.until),
            r.tail@ == self.tail@,
            r.services@ == self.services@,
            logs_args(r) == logs_args(*self),
    {
        let services = clone_services(&self.services);
        Logs {
            follow: self.follow,
            no_color: self.no_color,
            no_log_prefix: self.no_log_prefix,
            since: crate::config::clone_opt_string(&self.since),
            tail: self.tail.clone(),
            timestamps: self.timestamps,
            until: crate::config::clone_opt_string(&self.until),
            services,
        }
    }
}

} // verus!
