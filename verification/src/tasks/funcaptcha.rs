//! The generic FunCaptcha token task.

use vstd::prelude::*;
use crate::props::Properties;
use crate::tasks::Task;

verus! {

/// A task that asks the service to solve a FunCaptcha challenge and
/// return an interaction token.
#[derive(Debug, Clone, PartialEq, Eq)]
pub struct FunCaptchaTask {
    /// The url of the website carrying the challenge.
    pub website_url: String,
    /// The website's public key.
    pub website_public_key: String,
    /// An optional subdomain override for the challenge provider.
    pub website_subdomain: Option<String>,
    /// Optional auxiliary data, already serialized to a string.
    pub data: Option<String>,
    /// The proxy descriptor, `host:port` or `host:port:user:password`.
    pub proxy: String,
}

impl FunCaptchaTask {
    /// Creates a task from the three required strings; auxiliary data and
    /// subdomain start out unset.
    pub fn new(url: String, public_key: String, proxy: String) -> (r: Self)
        ensures
            r == (FunCaptchaTask {
                website_url: url,
                website_public_key: public_key,
                website_subdomain: None,
                data: None,
                proxy,
            }),
    {
        FunCaptchaTask {
            proxy,
            website_public_key: public_key,
            website_url: url,
            website_subdomain: None,
            data: None,
        }
    }

    /// Sets the auxiliary data of the task. The argument is the data
    /// already serialized to a string, so nothing can fail here.
    pub fn data(self, data: String) -> (r: Self)
        ensures
            r == (FunCaptchaTask { data: Some(data), ..self }),
    {
        FunCaptchaTask { data: Some(data), ..self }
    }

    /// Sets the special subdomain of the challenge provider.
    pub fn subdomain(self, data: String) -> (r: Self)
        ensures
            r == (FunCaptchaTask { website_subdomain: Some(data), ..self }),
    {
        FunCaptchaTask { website_subdomain: Some(data), ..self }
    }
}

impl Task for FunCaptchaTask {
    open spec fn spec_task_type(&self) -> Seq<char> {
        "FunCaptchaTask"@
    }

    open spec fn spec_properties(&self) -> Map<Seq<char>, Seq<char>> {
        let required = Map::<Seq<char>, Seq<char>>::empty()
            .insert("websitePublicKey"@, self.website_public_key@)
            .insert("websiteURL"@, self.website_url@)
            .insert("proxy"@, self.proxy@);
        let with_data = if self.data is Some {
            required.insert("data"@, self.data->0@)
        } else {
            required
        };
        if self.website_subdomain is Some {
            with_data.insert("websiteSubdomain"@, self.website_subdomain->0@)
        } else {
            with_data
        }
    }

    fn task_type(&self) -> (r: &'static str) {
        "FunCaptchaTask"
    }

    fn properties(&self) -> (r: Properties) {
        let mut map = Properties::new();
        map.insert("websitePublicKey".to_owned(), self.website_public_key.clone());
        map.insert("websiteURL".to_owned(), self.website_url.clone());
        map.insert("proxy".to_owned(), self.proxy.clone());
        match self.data.as_ref() {
            Some(data) => map.insert("data".to_owned(), data.clone()),
            None => (),
        }
        match self.website_subdomain.as_ref() {
            Some(subdomain) => map.insert("websiteSubdomain".to_owned(), subdomain.clone()),
            None => (),
        }
        map
    }
}

} // verus!
