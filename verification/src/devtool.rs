//! The devtool service: the Lenra environment the app runs in while developed.

use vstd::prelude::*;
use vstd::string::*;

use crate::config::strings_view;
use crate::text::owned;

verus! {

/// The command, run in the devtool's container, that stops the app's
/// environment (which clears its cache).
pub fn stop_app_env_command() -> (r: Vec<String>)
    ensures
        strings_view(r@) == seq![
            "bin/dev_tools"@,
            "rpc"@,
            "ApplicationRunner.Environment.DynamicSupervisor.stop_env(1)"@,
        ],
{
    let r = vec![
        owned("bin/dev_tools"),
        owned("rpc"),
        owned("ApplicationRunner.Environment.DynamicSupervisor.stop_env(1)"),
    ];
    proof {
        assert(strings_view(r@) =~= seq![
            "bin/dev_tools"@,
            "rpc"@,
            "ApplicationRunner.Environment.DynamicSupervisor.stop_env(1)"@,
        ]);
    }
    r
}

} // verus!
