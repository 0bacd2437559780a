//! Credentials and notification settings for one run.
//!
//! The values are loaded from the environment by the surrounding binary;
//! the library only states what "usable" means for them.

use vstd::prelude::*;
use vstd::string::StringExecFns;

verus! {

/// Account credentials for the time-tracking site, plus the optional
/// notification-relay identity. Empty strings stand for absent values.
#[derive(Clone)]
pub struct Configuration {
    pub login: String,
    pub password: String,
    pub slack_user_token: String,
    pub slack_user_name: String,
}

impl Configuration {
    /// Both required credentials are present.
    pub open spec fn spec_is_ok(self) -> bool {
        self.login@.len() > 0 && self.password@.len() > 0
    }

    /// The notification relay is configured.
    pub open spec fn spec_can_post(self) -> bool {
        self.slack_user_token@.len() > 0 && self.slack_user_name@.len() > 0
    }

    pub fn new(
        login: String,
        password: String,
        slack_user_token: String,
        slack_user_name: String,
    ) -> (c: Configuration)
        ensures
            c.login == login,
            c.password == password,
            c.slack_user_token == slack_user_token,
            c.slack_user_name == slack_user_name,
    {
        Configuration { login, password, slack_user_token, slack_user_name }
    }

    /// Both required credentials are present.
    pub fn is_ok(&self) -> (r: bool)
        ensures
            r == self.spec_is_ok(),
    {
        !self.login.as_str().is_empty() && !self.password.as_str().is_empty()
    }

    /// The notification relay is configured: both optional values are present.
    pub fn can_post_to_slack(&self) -> (r: bool)
        ensures
            r == self.spec_can_post(),
    {
        !self.slack_user_token.as_str().is_empty() && !self.slack_user_name.as_str().is_empty()
    }

    /// A display form that shows the login and masks the password.
    pub fn debug_string(&self) -> (r: String)
        ensures
            r@ == "Configuration { login: \""@ + self.login@ + "\", password: \"******\" }"@,
    {
        let mut s = String::new();
        s.append("Configuration { login: \"");
        s.append(self.login.as_str());
        s.append("\", password: \"******\" }");
        proof {
            assert(Seq::<char>::empty() + "Configuration { login: \""@ + self.login@
                + "\", password: \"******\" }"@ =~= "Configuration { login: \""@ + self.login@
                + "\", password: \"******\" }"@);
        }
        s
    }
}

} // verus!
