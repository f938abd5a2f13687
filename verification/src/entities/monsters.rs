pub mod mon_green_slime;
