pub mod adc;
pub mod agc;
pub mod alex;
pub mod audio;
pub mod bands;
pub mod bytes;
pub mod discovery;
pub mod filters;
pub mod grid;
pub mod modes;
pub mod protocol1;
pub mod protocol2;
pub mod radio;
pub mod receiver;
pub mod single;
pub mod spectrum;
pub mod transmitter;
pub mod util;
