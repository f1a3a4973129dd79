//! The APIs of a node and the numbers under which a session reaches them.
//!
//! A node numbers its APIs anew for every session: the client asks for the
//! number of each API after login and keeps the answers in a [`GrapheneApis`].

use crate::config::{api_name_from, Config, ConfigView};
use vstd::prelude::*;

verus! {

/// An API of the node, with the number that the node gave it.
#[derive(Debug, Clone, Copy, PartialEq, Eq, Structural)]
pub enum GrapheneApi {
    Database(u8),
    Network(u8),
    History(u8),
    Crypto(u8),
    Custom(u8),
}

impl GrapheneApi {
    /// The number of the API.
    pub open spec fn id(self) -> u8 {
        match self {
            GrapheneApi::Database(id) => id,
            GrapheneApi::Network(id) => id,
            GrapheneApi::History(id) => id,
            GrapheneApi::Crypto(id) => id,
            GrapheneApi::Custom(id) => id,
        }
    }

    /// The label of the API, as it is shown to a reader.
    pub open spec fn label_text(self) -> Seq<char> {
        match self {
            GrapheneApi::Database(_) => "GrapheneApi::Database"@,
            GrapheneApi::Network(_) => "GrapheneApi::Network"@,
            GrapheneApi::History(_) => "GrapheneApi::History"@,
            GrapheneApi::Crypto(_) => "GrapheneApi::Crypto"@,
            GrapheneApi::Custom(_) => "GrapheneApi::Custom"@,
        }
    }

    /// The name under which the node knows the API. A custom API has the name
    /// that the configuration gives to its number.
    pub open spec fn name_text(self, config: ConfigView) -> Seq<char> {
        match self {
            GrapheneApi::Database(_) => "database"@,
            GrapheneApi::Network(_) => "network_broadcast"@,
            GrapheneApi::History(_) => "history"@,
            GrapheneApi::Crypto(_) => "crypto"@,
            GrapheneApi::Custom(id) => api_name_from(config.custom_apis, id, 0),
        }
    }

    /// The label of the API, as it is shown to a reader.
    pub fn to_string(&self) -> (label: String)
        ensures
            label@ == self.label_text(),
    {
        match self {
            GrapheneApi::Database(_) => "GrapheneApi::Database".to_owned(),
            GrapheneApi::Network(_) => "GrapheneApi::Network".to_owned(),
            GrapheneApi::History(_) => "GrapheneApi::History".to_owned(),
            GrapheneApi::Crypto(_) => "GrapheneApi::Crypto".to_owned(),
            GrapheneApi::Custom(_) => "GrapheneApi::Custom".to_owned(),
        }
    }

    /// The name under which the node knows the API.
    pub fn name(&self, config: &Config) -> (name: String)
        ensures
            name@ == self.name_text(config@),
    {
        match self {
            GrapheneApi::Database(_) => "database".to_owned(),
            GrapheneApi::Network(_) => "network_broadcast".to_owned(),
            GrapheneApi::History(_) => "history".to_owned(),
            GrapheneApi::Crypto(_) => "crypto".to_owned(),
            GrapheneApi::Custom(id) => config.get_custom_api_name(*id),
        }
    }
}

impl From<GrapheneApi> for u8 {
    /// The number of the API.
    fn from(api: GrapheneApi) -> (id: u8) {
        match api {
            GrapheneApi::Database(id) => id,
            GrapheneApi::Network(id) => id,
            GrapheneApi::History(id) => id,
            GrapheneApi::Crypto(id) => id,
            GrapheneApi::Custom(id) => id,
        }
    }
}

impl vstd::std_specs::convert::FromSpecImpl<GrapheneApi> for u8 {
    open spec fn obeys_from_spec() -> bool {
        true
    }

    open spec fn from_spec(api: GrapheneApi) -> u8 {
        api.id()
    }
}

/// The numbers of the node's APIs, as far as the session knows them.
#[derive(Debug)]
pub struct GrapheneApis {
    database: Option<GrapheneApi>,
    network: Option<GrapheneApi>,
    history: Option<GrapheneApi>,
    crypto: Option<GrapheneApi>,
    custom: Option<Vec<GrapheneApi>>,
}

/// The mathematical value of a [`GrapheneApis`]: the number of each API that
/// is known.
pub ghost struct ApiNumbers {
    pub database: Option<u8>,
    pub network: Option<u8>,
    pub history: Option<u8>,
    pub crypto: Option<u8>,
    pub custom: Option<Seq<u8>>,
}

/// The number of an API, if it is known.
pub open spec fn number_of(api: Option<GrapheneApi>) -> Option<u8> {
    match api {
        Some(api) => Some(api.id()),
        None => None,
    }
}

/// The numbers of a list of APIs.
pub open spec fn numbers_of(apis: Seq<GrapheneApi>) -> Seq<u8> {
    Seq::new(apis.len(), |i: int| apis[i].id())
}

impl View for GrapheneApis {
    type V = ApiNumbers;

    closed spec fn view(&self) -> ApiNumbers {
        ApiNumbers {
            database: number_of(self.database),
            network: number_of(self.network),
            history: number_of(self.history),
            crypto: number_of(self.crypto),
            custom: match self.custom {
                Some(apis) => Some(numbers_of(apis@)),
                None => None,
            },
        }
    }
}

impl GrapheneApis {
    /// Each number is stored under the API that it belongs to.
    #[verifier::type_invariant]
    spec fn well_formed(&self) -> bool {
        &&& self.database matches Some(api) ==> api is Database
        &&& self.network matches Some(api) ==> api is Network
        &&& self.history matches Some(api) ==> api is History
        &&& self.crypto matches Some(api) ==> api is Crypto
        &&& self.custom matches Some(apis) ==> forall|i: int|
            0 <= i < apis@.len() ==> #[trigger] apis@[i] is Custom
    }

    /// No number is known.
    pub fn new() -> (apis: GrapheneApis)
        ensures
            apis@ == (ApiNumbers {
                database: None,
                network: None,
                history: None,
                crypto: None,
                custom: None,
            }),
    {
        GrapheneApis { database: None, network: None, history: None, crypto: None, custom: None }
    }

    /// Notes the number of the database API.
    pub fn set_database_api(&mut self, id: u8)
        ensures
            final(self)@ == (ApiNumbers { database: Some(id), ..old(self)@ }),
    {
        proof {
            use_type_invariant(&*self);
        }
        self.database = Some(GrapheneApi::Database(id));
    }

    /// Notes the number of the network API.
    pub fn set_network_api(&mut self, id: u8)
        ensures
            final(self)@ == (ApiNumbers { network: Some(id), ..old(self)@ }),
    {
        proof {
            use_type_invariant(&*self);
        }
        self.network = Some(GrapheneApi::Network(id));
    }

    /// Notes the number of the history API.
    pub fn set_history_api(&mut self, id: u8)
        ensures
            final(self)@ == (ApiNumbers { history: Some(id), ..old(self)@ }),
    {
        proof {
            use_type_invariant(&*self);
        }
        self.history = Some(GrapheneApi::History(id));
    }

    /// Notes the number of the crypto API.
    pub fn set_crypto_api(&mut self, id: u8)
        ensures
            final(self)@ == (ApiNumbers { crypto: Some(id), ..old(self)@ }),
    {
        proof {
            use_type_invariant(&*self);
        }
        self.crypto = Some(GrapheneApi::Crypto(id));
    }

    /// Notes the numbers of the custom APIs, in place of those that were
    /// known.
    pub fn set_custom_api(&mut self, ids: Vec<u8>)
        ensures
            final(self)@ == (ApiNumbers { custom: Some(ids@), ..old(self)@ }),
    {
        let mut apis: Vec<GrapheneApi> = Vec::new();
        let mut i: usize = 0;
        while i < ids.len()
            invariant
                i <= ids.len(),
                apis.len() == i,
                forall|k: int| 0 <= k < i ==> #[trigger] apis@[k] == GrapheneApi::Custom(ids@[k]),
            decreases ids.len() - i,
        {
            apis.push(GrapheneApi::Custom(ids[i]));
            i += 1;
        }
        assert(numbers_of(apis@) =~= ids@);
        proof {
            use_type_invariant(&*self);
        }
        self.custom = Some(apis);
    }

    /// The number of the database API, if it is known.
    pub fn get_database_api(&self) -> (id: Option<u8>)
        ensures
            id == self@.database,
    {
        match self.database {
            Some(api) => Some(u8::from(api)),
            None => None,
        }
    }

    /// The number of the network API, if it is known.
    pub fn get_network_api(&self) -> (id: Option<u8>)
        ensures
            id == self@.network,
    {
        match self.network {
            Some(api) => Some(u8::from(api)),
            None => None,
        }
    }

    /// The number of the history API, if it is known.
    pub fn get_history_api(&self) -> (id: Option<u8>)
        ensures
            id == self@.history,
    {
        match self.history {
            Some(api) => Some(u8::from(api)),
            None => None,
        }
    }

    /// The number of the crypto API, if it is known.
    pub fn get_crypto_api(&self) -> (id: Option<u8>)
        ensures
            id == self@.crypto,
    {
        match self.crypto {
            Some(api) => Some(u8::from(api)),
            None => None,
        }
    }

    /// The numbers of the custom APIs, if they are known.
    pub fn get_custom_api(&self) -> (ids: Option<Vec<u8>>)
        ensures
            match ids {
                Some(v) => self@.custom == Some(v@),
                None => self@.custom is None,
            },
    {
        match &self.custom {
            Some(apis) => {
                let mut ids: Vec<u8> = Vec::new();
                let mut i: usize = 0;
                while i < apis.len()
                    invariant
                        i <= apis.len(),
                        ids.len() == i,
                        forall|k: int| 0 <= k < i ==> ids@[k] == apis@[k].id(),
                    decreases apis.len() - i,
                {
                    ids.push(u8::from(apis[i]));
                    i += 1;
                }
                assert(numbers_of(apis@) =~= ids@);
                Some(ids)
            },
            None => None,
        }
    }
}

} // verus!
