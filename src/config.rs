use crate::log::LogLevel;
use vstd::prelude::*;

verus! {

pub type RGB = [u8; 3];

/// Colours of the interface.
#[derive(Debug, Clone, Copy)]
pub struct ThemeConfig {
    pub selected_color: RGB,
    pub unselected_color: RGB,
    pub help_text_color: RGB,
}

/// Settings read from the configuration file.
#[derive(Debug, Clone, Copy)]
pub struct Config {
    pub theme_config: ThemeConfig,
    pub log_level: LogLevel,
}

impl ThemeConfig {
    pub fn default() -> (r: Self)
        ensures
            r.selected_color@ == seq![255u8, 165u8, 0u8],
            r.unselected_color@ == seq![255u8, 236u8, 195u8],
            r.help_text_color@ == seq![93u8, 169u8, 233u8],
    {
        let selected_color: RGB = [255, 165, 0];
        let unselected_color: RGB = [255, 236, 195];
        let help_text_color: RGB = [93, 169, 233];
        proof {
            assert(selected_color@ =~= seq![255u8, 165u8, 0u8]);
            assert(unselected_color@ =~= seq![255u8, 236u8, 195u8]);
            assert(help_text_color@ =~= seq![93u8, 169u8, 233u8]);
        }
        ThemeConfig { selected_color, unselected_color, help_text_color }
    }
}

impl Config {
    pub fn default() -> (r: Self)
        ensures
            r.theme_config.selected_color@ == seq![255u8, 165u8, 0u8],
            r.theme_config.unselected_color@ == seq![255u8, 236u8, 195u8],
            r.theme_config.help_text_color@ == seq![93u8, 169u8, 233u8],
            r.log_level == LogLevel::INFO,
    {
        Config { theme_config: ThemeConfig::default(), log_level: LogLevel::default() }
    }
}

} // verus!
