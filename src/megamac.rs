//! The execution environment handed to every macro implementation.
use vstd::prelude::*;
use crate::logr::Logr;

verus! {

/// The prefix that labels the diagnostics of one macro instance.
pub open spec fn env_prefix(caller_path: Seq<char>, exec_fn_mod_ident: Seq<char>) -> Seq<char> {
    caller_path + "::"@ + exec_fn_mod_ident
}

/// Where a macro was called from and where its implementation lives.
#[derive(Debug)]
pub struct ExecEnv {
    pub caller_path: String,
    pub implementations_mod_ident: String,
    pub exec_args_ident: String,
    pub exec_fn_mod_ident: String,
    pub logr: Logr,
}

impl ExecEnv {
    /// The diagnostic channel is labelled after the caller's module and
    /// the implementation module.
    pub open spec fn wf(&self) -> bool {
        self.logr.prefix@ == env_prefix(self.caller_path@, self.exec_fn_mod_ident@)
    }

    pub fn new(
        caller_path: String,
        implementations_mod_ident: String,
        exec_args_ident: String,
        exec_fn_mod_ident: String,
    ) -> (r: ExecEnv)
        ensures
            r.wf(),
            r.caller_path@ == caller_path@,
            r.implementations_mod_ident@ == implementations_mod_ident@,
            r.exec_args_ident@ == exec_args_ident@,
            r.exec_fn_mod_ident@ == exec_fn_mod_ident@,
    {
        let prefix = caller_path.clone().concat("::").concat(exec_fn_mod_ident.as_str());
        ExecEnv {
            caller_path,
            implementations_mod_ident,
            exec_args_ident,
            exec_fn_mod_ident,
            logr: Logr::new(prefix),
        }
    }
}

} // verus!
