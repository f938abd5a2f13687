pub mod npc_old_man;
