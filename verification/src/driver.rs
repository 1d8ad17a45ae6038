//! The driver before it is split into its two sides.
use vstd::prelude::*;

use crate::controller::Esp8266Controller;
use crate::modem::{Esp8266Modem, Phase};

verus! {

/// The driver of an adapter on a serial line, with the pins that enable and reset it. It holds them
/// until it is split.
pub struct Esp8266Driver<UART, ENABLE, RESET> {
    pub uart: Option<UART>,
    pub enable: Option<ENABLE>,
    pub reset: Option<RESET>,
}

impl<UART, ENABLE, RESET> Esp8266Driver<UART, ENABLE, RESET> {
    /// Whether the driver was not split.
    pub open spec fn whole(self) -> bool {
        self.uart is Some && self.enable is Some && self.reset is Some
    }

    /// A driver that was not split.
    pub fn new(uart: UART, enable: ENABLE, reset: RESET) -> (driver: Self)
        ensures
            driver.uart == Some(uart),
            driver.enable == Some(enable),
            driver.reset == Some(reset),
            driver.whole(),
    {
        Esp8266Driver { uart: Some(uart), enable: Some(enable), reset: Some(reset) }
    }

    /// Whether the driver was not split.
    pub fn is_whole(&self) -> (res: bool)
        ensures
            res == self.whole(),
    {
        self.uart.is_some() && self.enable.is_some() && self.reset.is_some()
    }

    /// Splits the driver into the controller and the modem, which are connected by the given
    /// channels, each a sending and a receiving end.
    pub fn initialize<BUFFER, POOL, CP, CC, RP, RC, NP, NC>(
        &mut self,
        parse_buffer: BUFFER,
        socket_pool: POOL,
        command_channel: (CP, CC),
        response_channel: (RP, RC),
        notification_channel: (NP, NC),
    ) -> (res: (
        Esp8266Controller<POOL, CP, RC, NC>,
        Esp8266Modem<UART, ENABLE, RESET, BUFFER, CC, RP, NP>,
    ))
        requires
            old(self).whole(),
        ensures
            final(self).uart is None,
            final(self).enable is None,
            final(self).reset is None,
            res.0.socket_pool == socket_pool,
            res.0.command_producer == command_channel.0,
            res.0.response_consumer == response_channel.1,
            res.0.notification_consumer == notification_channel.1,
            res.1.uart == old(self).uart->0,
            res.1.enable == old(self).enable->0,
            res.1.reset == old(self).reset->0,
            res.1.parse_buffer == parse_buffer,
            res.1.command_consumer == command_channel.1,
            res.1.response_producer == response_channel.0,
            res.1.notification_producer == notification_channel.0,
            res.1@ == Phase::Idle,
            res.1@.wf(),
    {
        let (cp, cc) = command_channel;
        let (rp, rc) = response_channel;
        let (np, nc) = notification_channel;
        let modem = Esp8266Modem::new(
            self.uart.take().unwrap(),
            self.enable.take().unwrap(),
            self.reset.take().unwrap(),
            parse_buffer,
            cc,
            rp,
            np,
        );
        let controller = Esp8266Controller::new(socket_pool, cp, rc, nc);
        (controller, modem)
    }
}

} // verus!
