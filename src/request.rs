use vstd::prelude::*;
use crate::params::ParamMap;

verus! {

/// Body of a start request.
pub struct StartParam {
    pub format: String,
    pub name: String,
    /// The contents of the configuration file, if one was given.
    pub config: Option<String>,
    /// The secret, if one was asked for.
    pub password: Option<String>,
    pub store_password: bool,
}

/// Body of a stop request.
pub struct StopParam {
    pub name: String,
}

/// Body of a configuration-template request.
pub struct ConfigTemplateParam {
    pub name: String,
    pub format: String,
}

/// Body of a password change.
pub struct SetPasswordParam {
    pub name: String,
    pub password: String,
    pub store: bool,
}

/// One request to the service, with its body.
pub enum Request {
    List,
    Start(StartParam),
    Stop(StopParam),
    Exec { name: String, api: String, body: ParamMap },
    ConfigTemplate(ConfigTemplateParam),
    SetPassword(SetPasswordParam),
}

/// The path of the endpoint that a request goes to.
pub open spec fn path_of(r: Request) -> Seq<char> {
    match r {
        Request::List => "/task/list"@,
        Request::Start(_) => "/task/start"@,
        Request::Stop(_) => "/task/stop"@,
        Request::Exec { name, api, .. } => "/task/"@ + name@ + "/"@ + api@,
        Request::ConfigTemplate(_) => "/task/config-template"@,
        Request::SetPassword(_) => "/task/set-password"@,
    }
}

impl Request {
    /// The listing is read with GET; every other request is a POST.
    pub fn is_get(&self) -> (r: bool)
        ensures
            r == (*self is List),
    {
        match self {
            Request::List => true,
            _ => false,
        }
    }

    /// The path of the endpoint, below the service's base address.
    pub fn path(&self) -> (r: String)
        ensures
            r@ == path_of(*self),
    {
        match self {
            Request::List => "/task/list".to_owned(),
            Request::Start(_) => "/task/start".to_owned(),
            Request::Stop(_) => "/task/stop".to_owned(),
            Request::Exec { name, api, .. } => {
                let r = "/task/".to_owned().concat(name.as_str()).concat("/").concat(api.as_str());
                r
            },
            Request::ConfigTemplate(_) => "/task/config-template".to_owned(),
            Request::SetPassword(_) => "/task/set-password".to_owned(),
        }
    }

    /// The full address of the request on the service at `server`.
    pub fn url(&self, server: &String) -> (r: String)
        ensures
            r@ == server@ + path_of(*self),
    {
        let p = self.path();
        server.clone().concat(p.as_str())
    }
}

} // verus!
