//! UI-visible application state and the event type carried to it.

use vstd::prelude::*;

verus! {

/// Status code the application starts with, before any response arrived.
pub const INITIAL_STATUS_CODE: u16 = 226;

/// One enrichment record for a relay-hop candidate address.
#[derive(Debug, Clone)]
pub struct CircuitInfo {
    pub ip_address: String,
    pub city: String,
    pub country: String,
}

/// Mathematical model of a [`CircuitInfo`] record.
pub struct CircuitInfoModel {
    pub ip_address: Seq<char>,
    pub city: Seq<char>,
    pub country: Seq<char>,
}

impl View for CircuitInfo {
    type V = CircuitInfoModel;

    open spec fn view(&self) -> CircuitInfoModel {
        CircuitInfoModel {
            ip_address: self.ip_address@,
            city: self.city@,
            country: self.country@,
        }
    }
}

/// Events carried from the background pipeline to the state owner.
#[derive(Debug)]
pub enum ChannelTypes {
    CircuitInformation(Vec<CircuitInfo>),
}

/// Mathematical model of a [`ChannelTypes`] event.
pub enum ChannelTypesModel {
    CircuitInformation(Seq<CircuitInfoModel>),
}

impl View for ChannelTypes {
    type V = ChannelTypesModel;

    open spec fn view(&self) -> ChannelTypesModel {
        match self {
            ChannelTypes::CircuitInformation(records) => ChannelTypesModel::CircuitInformation(
                records@.map_values(|r: CircuitInfo| r@),
            ),
        }
    }
}

/// State owned by the foreground loop.  Updates reach it only as plain
/// values, so the owner needs no lock around any of its fields.
#[derive(Debug, Clone)]
pub struct App {
    /// Is the application running?
    pub running: bool,
    /// Counter shown in the demo pane.
    pub counter: u8,
    /// Body of the fetched response, possibly truncated.
    pub tor_response_body: Vec<u8>,
    /// Status code of the fetched response.
    pub tor_response_status: u16,
    /// Enrichment records of the current circuit, hop order first.
    pub tor_circuits_info: Vec<CircuitInfo>,
}

impl App {
    /// Constructs the initial application state.
    pub fn new() -> (app: App)
        ensures
            app.running,
            app.counter == 0,
            app.tor_response_body@ =~= Seq::<u8>::empty(),
            app.tor_response_status == INITIAL_STATUS_CODE,
            app.tor_circuits_info@ =~= Seq::<CircuitInfo>::empty(),
    {
        App {
            running: true,
            counter: 0,
            tor_response_body: Vec::new(),
            tor_response_status: INITIAL_STATUS_CODE,
            tor_circuits_info: Vec::new(),
        }
    }

    /// Handles the tick event of the terminal; the state does not change.
    pub fn tick(&self) {
    }

    /// Set running to false to quit the application.
    pub fn quit(&mut self)
        ensures
            !final(self).running,
            final(self).counter == old(self).counter,
            final(self).tor_response_body == old(self).tor_response_body,
            final(self).tor_response_status == old(self).tor_response_status,
            final(self).tor_circuits_info == old(self).tor_circuits_info,
    {
        self.running = false;
    }

    /// Adds one to the counter; at the largest value the counter stays put.
    pub fn increment_counter(&mut self)
        ensures
            old(self).counter < u8::MAX ==> final(self).counter == old(self).counter + 1,
            old(self).counter == u8::MAX ==> final(self).counter == old(self).counter,
            final(self).running == old(self).running,
            final(self).tor_response_body == old(self).tor_response_body,
            final(self).tor_response_status == old(self).tor_response_status,
            final(self).tor_circuits_info == old(self).tor_circuits_info,
    {
        if let Some(res) = self.counter.checked_add(1) {
            self.counter = res;
        }
    }

    /// Takes one from the counter; at zero the counter stays put.
    pub fn decrement_counter(&mut self)
        ensures
            old(self).counter > 0 ==> final(self).counter == old(self).counter - 1,
            old(self).counter == 0 ==> final(self).counter == old(self).counter,
            final(self).running == old(self).running,
            final(self).tor_response_body == old(self).tor_response_body,
            final(self).tor_response_status == old(self).tor_response_status,
            final(self).tor_circuits_info == old(self).tor_circuits_info,
    {
        if let Some(res) = self.counter.checked_sub(1) {
            self.counter = res;
        }
    }

    /// Replaces the stored response body.
    pub fn set_tor_response_body(&mut self, body: Vec<u8>)
        ensures
            final(self).tor_response_body == body,
            final(self).running == old(self).running,
            final(self).counter == old(self).counter,
            final(self).tor_response_status == old(self).tor_response_status,
            final(self).tor_circuits_info == old(self).tor_circuits_info,
    {
        self.tor_response_body = body;
    }

    /// Replaces the stored response status code.
    pub fn set_tor_status_code(&mut self, status_code: u16)
        ensures
            final(self).tor_response_status == status_code,
            final(self).running == old(self).running,
            final(self).counter == old(self).counter,
            final(self).tor_response_body == old(self).tor_response_body,
            final(self).tor_circuits_info == old(self).tor_circuits_info,
    {
        self.tor_response_status = status_code;
    }

    /// Replaces the stored circuit enrichment records.  The state owner is
    /// the only writer, so the update is unconditional.
    pub fn set_tor_circuit_info(&mut self, circuit_infos: Vec<CircuitInfo>)
        ensures
            final(self).tor_circuits_info == circuit_infos,
            final(self).running == old(self).running,
            final(self).counter == old(self).counter,
            final(self).tor_response_body == old(self).tor_response_body,
            final(self).tor_response_status == old(self).tor_response_status,
    {
        self.tor_circuits_info = circuit_infos;
    }
}

} // verus!
