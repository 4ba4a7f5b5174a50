pub mod bybit_linear_swap;
