pub mod evdev;
