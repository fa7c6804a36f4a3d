//! Configuration of the Firebase app that the desktop client registers.
use vstd::prelude::*;

verus! {

/// Google Cloud project that backs the application.
pub const PROJECT_ID: &'static str = "aya-app-33a9e";

/// Name under which the app is registered with the SDK.
pub const APP_NAME: &'static str = "project-824517900422";

/// Plain form of the options that the Firebase SDK takes when an app is
/// created. The caller turns it into the SDK's own options value.
pub struct FirebaseConfig {
    pub api_key: String,
    pub project_id: String,
    pub app_name: Option<String>,
}

/// The configuration this application registers with Firebase: its project,
/// its app name, and an empty API key.
pub fn firebase_app_config() -> (r: FirebaseConfig)
    ensures
        r.api_key@ == Seq::<char>::empty(),
        r.project_id@ == PROJECT_ID@,
        r.app_name.is_some() && r.app_name.unwrap()@ == APP_NAME@,
{
    FirebaseConfig {
        api_key: String::new(),
        project_id: PROJECT_ID.to_string(),
        app_name: Some(APP_NAME.to_string()),
    }
}

} // verus!
