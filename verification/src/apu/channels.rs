pub mod noise;
pub mod square;
pub mod wave;

pub use crate::apu::channels::noise::NoiseChannel;
pub use crate::apu::channels::square::SquareChannel;
pub use crate::apu::channels::wave::WaveChannel;
