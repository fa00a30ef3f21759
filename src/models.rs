use vstd::prelude::*;

verus! {

/// What the service says of itself before login.
#[derive(Clone, Debug)]
pub struct ServerStatus {
    pub is_init: Option<bool>,
    pub auth_methods: Option<Vec<String>>,
    pub auth_form_data: Option<AuthFormData>,
}

/// Login-form settings of the service.
#[derive(Clone, Debug)]
pub struct AuthFormData {
    pub auth_openid_button_text: Option<String>,
    pub auth_openid_auto_launch: Option<bool>,
    pub auth_login_custom_message: Option<String>,
}

#[derive(Clone, Debug)]
pub struct Author {
    pub id: Option<String>,
    pub name: String,
}

#[derive(Clone, Debug)]
pub struct SeriesItem {
    pub id: Option<String>,
    pub name: Option<String>,
    pub sequence: Option<String>,
}

#[derive(Clone, Debug)]
pub struct AudioFileMetadata {
    pub filename: Option<String>,
    pub ext: Option<String>,
    pub path: Option<String>,
    pub size: Option<u64>,
}

/// How this client introduces itself when it opens a session.
#[derive(Clone, Debug)]
pub struct DeviceInfo {
    pub device_id: String,
    pub client_name: String,
    pub client_version: String,
    pub device_name: String,
    pub device_type: String,
}

impl DeviceInfo {
    /// This client on the machine named `device_name`.
    pub fn for_device(device_name: String) -> (r: DeviceInfo)
        ensures
            r.device_id@ == "shelfily-desktop-gtk"@,
            r.client_name@ == "Shelfily Desktop GTK"@,
            r.client_version@ == "0.1.0"@,
            r.device_name == device_name,
            r.device_type@ == "desktop"@,
    {
        DeviceInfo {
            device_id: String::from_str("shelfily-desktop-gtk"),
            client_name: String::from_str("Shelfily Desktop GTK"),
            client_version: String::from_str("0.1.0"),
            device_name,
            device_type: String::from_str("desktop"),
        }
    }
}

} // verus!
