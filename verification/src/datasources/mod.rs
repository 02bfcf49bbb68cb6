pub mod tmdb;
