//! What the handlers share: the stores, the provider's account, and where
//! the pages of the game are served from.

use vstd::prelude::*;
use vstd::string::*;
use crate::config::Settings;
use crate::text::{concat2, concat3};
use crate::domain::games::store::GameStore;
use crate::domain::payments::store::PaymentStore;
use crate::domain::users::store::UserStore;
use crate::lightning::service::LightningService;

verus! {

pub struct AppState {
    pub ui_dir: String,
    pub remote_url: String,
    pub user_store: UserStore,
    pub game_store: GameStore,
    pub payment_store: PaymentStore,
    pub lightning_service: LightningService,
}

/// The address that the service listens on: the domain and the port of the
/// settings.
pub fn listen_address(settings: &Settings) -> (address: String)
    ensures
        address@ == settings.api_settings.domain@ + ":"@ + settings.api_settings.port@,
{
    concat3(settings.api_settings.domain.as_str(), ":", settings.api_settings.port.as_str())
}

/// The file of the database, in the data folder of the settings.
pub fn database_path(settings: &Settings) -> (path: String)
    ensures
        path@ == settings.db_settings.data_folder@ + "/game.db"@,
{
    concat2(settings.db_settings.data_folder.as_str(), "/game.db")
}

/// The address under which the database is opened.
pub fn database_url(settings: &Settings) -> (url: String)
    ensures
        url@ == "sqlite:"@ + (settings.db_settings.data_folder@ + "/game.db"@),
{
    concat2("sqlite:", database_path(settings).as_str())
}

} // verus!
