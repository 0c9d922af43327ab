use vstd::prelude::*;

verus! {

/// Default gas price of the nested-call ABI.
pub const DEFAULT_CALL_PRICE: u64 = 12000;

/// Default gas price of the print ABI.
pub const DEFAULT_PRINT_PRICE: u64 = 0;

/// Default gas price of the contract-creation ABI.
pub const DEFAULT_CREATE_SC_PRICE: u64 = 1000;

/// Default gas price of the ledger-write ABIs.
pub const DEFAULT_SET_DATA_PRICE: u64 = 500;

/// Default gas price of the ledger-read ABIs.
pub const DEFAULT_GET_DATA_PRICE: u64 = 500;

/// Default gas price of the gas-introspection ABI.
pub const DEFAULT_REMAINING_GAS_PRICE: u64 = 100;

/// Default gas price of the remaining, individually configured ABIs:
/// coin transfers, balance and context queries, and host randomness.
pub const DEFAULT_CONFIGURED_PRICE: u64 = 100;

/// Default cap on the sandbox's linear memory, in 64 KiB pages.
pub const DEFAULT_MAX_PAGES: u64 = 64;

/// Per-invocation table of ABI gas prices and the linear-memory page cap.
///
/// Every ABI prologue deducts the price of its bucket from the gas counter
/// before doing any work. The table is handed to the runtime on each
/// invocation, so two concurrent invocations can never observe each
/// other's price changes.
#[derive(Clone, Copy, PartialEq, Eq, Structural)]
pub struct Settings {
    /// Gas price of the nested-call ABI.
    pub call_price: u64,
    /// Gas price of the print ABI.
    pub print_price: u64,
    /// Gas price of the contract-creation ABI.
    pub create_sc_price: u64,
    /// Gas price of the ledger-write ABIs.
    pub set_data_price: u64,
    /// Gas price of the ledger-read ABIs.
    pub get_data_price: u64,
    /// Gas price of the gas-introspection ABI.
    pub remaining_gas_price: u64,
    /// Gas price of the remaining, individually configured ABIs.
    pub configured_price: u64,
    /// Cap on the sandbox's linear memory, in 64 KiB pages.
    pub max_pages: u64,
}

/// The default price table.
pub open spec fn spec_default_settings() -> Settings {
    Settings {
        call_price: DEFAULT_CALL_PRICE,
        print_price: DEFAULT_PRINT_PRICE,
        create_sc_price: DEFAULT_CREATE_SC_PRICE,
        set_data_price: DEFAULT_SET_DATA_PRICE,
        get_data_price: DEFAULT_GET_DATA_PRICE,
        remaining_gas_price: DEFAULT_REMAINING_GAS_PRICE,
        configured_price: DEFAULT_CONFIGURED_PRICE,
        max_pages: DEFAULT_MAX_PAGES,
    }
}

impl Settings {
    /// A table holding the default price of every bucket and the default
    /// page cap.
    pub fn new() -> (r: Settings)
        ensures
            r == spec_default_settings(),
    {
        Settings {
            call_price: DEFAULT_CALL_PRICE,
            print_price: DEFAULT_PRINT_PRICE,
            create_sc_price: DEFAULT_CREATE_SC_PRICE,
            set_data_price: DEFAULT_SET_DATA_PRICE,
            get_data_price: DEFAULT_GET_DATA_PRICE,
            remaining_gas_price: DEFAULT_REMAINING_GAS_PRICE,
            configured_price: DEFAULT_CONFIGURED_PRICE,
            max_pages: DEFAULT_MAX_PAGES,
        }
    }

    /// Restores the default price of every bucket, keeping the page cap.
    pub fn reset_metering(&mut self)
        ensures
            *final(self) == (Settings { max_pages: old(self).max_pages, ..spec_default_settings() }),
    {
        self.call_price = DEFAULT_CALL_PRICE;
        self.print_price = DEFAULT_PRINT_PRICE;
        self.create_sc_price = DEFAULT_CREATE_SC_PRICE;
        self.set_data_price = DEFAULT_SET_DATA_PRICE;
        self.get_data_price = DEFAULT_GET_DATA_PRICE;
        self.remaining_gas_price = DEFAULT_REMAINING_GAS_PRICE;
        self.configured_price = DEFAULT_CONFIGURED_PRICE;
    }

    /// Sets the price of every bucket to `price`, keeping the page cap.
    pub fn set_metering(&mut self, price: u64)
        ensures
            *final(self) == (Settings {
                call_price: price,
                print_price: price,
                create_sc_price: price,
                set_data_price: price,
                get_data_price: price,
                remaining_gas_price: price,
                configured_price: price,
                max_pages: old(self).max_pages,
            }),
    {
        self.call_price = price;
        self.print_price = price;
        self.create_sc_price = price;
        self.set_data_price = price;
        self.get_data_price = price;
        self.remaining_gas_price = price;
        self.configured_price = price;
    }

    /// Price of the nested-call ABI.
    pub fn metering_call(&self) -> (r: u64)
        ensures
            r == self.call_price,
    {
        self.call_price
    }

    /// Price of the print ABI.
    pub fn metering_print(&self) -> (r: u64)
        ensures
            r == self.print_price,
    {
        self.print_price
    }

    /// Price of the contract-creation ABI.
    pub fn metering_create_sc(&self) -> (r: u64)
        ensures
            r == self.create_sc_price,
    {
        self.create_sc_price
    }

    /// Price of the ledger-write ABIs.
    pub fn metering_set_data(&self) -> (r: u64)
        ensures
            r == self.set_data_price,
    {
        self.set_data_price
    }

    /// Price of the ledger-read ABIs.
    pub fn metering_get_data(&self) -> (r: u64)
        ensures
            r == self.get_data_price,
    {
        self.get_data_price
    }

    /// Price of the gas-introspection ABI.
    pub fn metering_remaining_points(&self) -> (r: u64)
        ensures
            r == self.remaining_gas_price,
    {
        self.remaining_gas_price
    }

    /// Price of the remaining, individually configured ABIs.
    pub fn metering_configured(&self) -> (r: u64)
        ensures
            r == self.configured_price,
    {
        self.configured_price
    }

    /// Cap on the sandbox's linear memory, in 64 KiB pages.
    pub fn max_number_of_pages(&self) -> (r: u64)
        ensures
            r == self.max_pages,
    {
        self.max_pages
    }
}

} // verus!
