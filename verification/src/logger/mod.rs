pub mod ringbuf;
