use vstd::prelude::*;

verus! {

/// Everything a launch of the target editor needs: the program to spawn, the
/// one environment variable to inject into its environment, and the forwarded
/// argument list.
pub struct LaunchPlan {
    pub program: String,
    pub env_var_name: String,
    pub env_var_value: String,
    pub args: Vec<String>,
}

/// Builds the launch invocation: the target editor, with the profile
/// selection variable set to the chosen name, and every caller-supplied
/// argument forwarded verbatim and in its original order.
pub fn launch_plan(chosen: String, args: Vec<String>) -> (p: LaunchPlan)
    ensures
        p.program@ == "nvim"@,
        p.env_var_name@ == "NVIM_APPNAME"@,
        p.env_var_value@ == chosen@,
        p.args == args,
{
    LaunchPlan {
        program: String::from_str("nvim"),
        env_var_name: String::from_str("NVIM_APPNAME"),
        env_var_value: chosen,
        args,
    }
}

} // verus!
