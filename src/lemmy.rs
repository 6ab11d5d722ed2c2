pub mod typecast;
