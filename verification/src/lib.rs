pub mod reader;
pub mod text;
pub mod palette;
pub mod art;
pub mod map;
pub mod grp;
pub mod wav;
pub mod kwv;
pub mod voc;
pub mod rts;
pub mod demo;
pub mod campaign;
pub mod game_flow;
pub mod midi;
pub mod midi_score;
pub mod font;
pub mod net;
pub mod scoreboard;
pub mod save;
pub mod player;
pub mod cheats;
pub mod console;
pub mod sounds;
pub mod config;
pub mod hud;
pub mod combat;
pub mod interactivity;
pub mod effectors;
pub mod con_sounds;
pub mod sprites;
pub mod animation;
pub mod level_loader;
pub mod menu_text;
